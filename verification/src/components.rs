//! The two per-entity components: the ordering rank and the spatial position.

use vstd::prelude::*;
use vstd::arithmetic::div_mod::lemma_add_mod_noop_right;
use vstd::arithmetic::div_mod::lemma_mod_division_less_than_divisor;
use vstd::arithmetic::div_mod::lemma_mod_self_0;
use vstd::arithmetic::div_mod::lemma_small_mod;

verus! {

/// Ordering component: a rank deciding which sprite draws in front.
/// Ranks are kept in `[0, cycle_length)`; a larger rank is closer to the
/// camera once projected onto the depth axis.
#[derive(Clone, Copy, Debug, PartialEq, Eq, Structural)]
pub struct SpriteOrder {
    /// Controls which sprite is in front.
    pub order: i32,
}

impl SpriteOrder {
    /// Successor of a rank modulo the cycle length, as true (Euclidean)
    /// modulo: the result is in `[0, max_order)` for any starting rank.
    pub open spec fn bump_spec(order: int, max_order: int) -> int {
        (order + 1) % max_order
    }

    /// Push the sprite one rank towards the camera; a rank that reaches
    /// `max_order` wraps back to the rear rank `0`.
    pub fn bump_order(&mut self, max_order: i32)
        requires
            max_order > 0,
        ensures
            final(self).order == Self::bump_spec(old(self).order as int, max_order as int),
            0 <= final(self).order < max_order,
    {
        proof {
            lemma_mod_division_less_than_divisor(old(self).order as int, max_order as int);
        }
        let r0 = self.order.checked_rem_euclid(max_order).unwrap();
        proof {
            lemma_add_mod_noop_right(1, old(self).order as int, max_order as int);
            if r0 + 1 == max_order {
                lemma_mod_self_0(max_order as int);
            } else {
                lemma_small_mod((r0 + 1) as nat, max_order as nat);
            }
        }
        if r0 + 1 == max_order {
            self.order = 0;
        } else {
            self.order = r0 + 1;
        }
    }
}

/// Spatial component: a three-axis position. The X and Y axes are set once
/// at scene assembly; the Z (depth) axis of any entity that also carries a
/// `SpriteOrder` is written by the depth-projection pass alone.
#[derive(Clone, Copy, Debug, PartialEq, Eq, Structural)]
pub struct Spatial {
    /// Horizontal axis, fixed at creation.
    pub x: i64,
    /// Vertical axis, fixed at creation.
    pub y: i64,
    /// Depth axis, consumed by the compositing collaborator.
    pub z: i64,
}

impl Default for Spatial {
    /// The origin position, as a freshly created entity starts out.
    fn default() -> (s: Spatial)
        ensures
            s == (Spatial { x: 0, y: 0, z: 0 }),
    {
        Spatial { x: 0, y: 0, z: 0 }
    }
}

impl Spatial {
    /// Replace the vertical axis, leaving the other axes alone.
    pub fn set_y(&mut self, y: i64)
        ensures
            final(self).x == old(self).x,
            final(self).y == y,
            final(self).z == old(self).z,
    {
        self.y = y;
    }

    /// Replace the depth axis, leaving the other axes alone.
    pub fn set_z(&mut self, z: i64)
        ensures
            final(self).x == old(self).x,
            final(self).y == old(self).y,
            final(self).z == z,
    {
        self.z = z;
    }
}

} // verus!
