//! The per-tick depth-projection pass and the input-triggered order-cycling
//! pass over the entity store.

use vstd::prelude::*;
use crate::components::Spatial;
use crate::components::SpriteOrder;
use crate::world::World;
use crate::world::orders_in_range;

verus! {

/// Every entity carrying both components has its depth axis equal to its
/// ordering rank; this is what a tick establishes before the frame is
/// composited.
pub open spec fn depth_matches_order(w: &World) -> bool {
    forall|i: int| #![auto]
        0 <= i < w.num_entities()
            && w.orders_seq()[i] is Some
            && w.spatials_seq()[i] is Some
        ==> w.spatials_seq()[i]->Some_0.z == w.orders_seq()[i]->Some_0.order
}

/// One cycling step applied to a single entity's optional rank.
pub open spec fn bump_opt(o: Option<SpriteOrder>, cycle_length: int) -> Option<SpriteOrder> {
    match o {
        Some(c) => Some(
            SpriteOrder { order: SpriteOrder::bump_spec(c.order as int, cycle_length) as i32 },
        ),
        None => None,
    }
}

/// One cycling step applied to the whole ordering column.
pub open spec fn cycled_orders(
    s: Seq<Option<SpriteOrder>>,
    cycle_length: int,
) -> Seq<Option<SpriteOrder>> {
    Seq::new(s.len(), |i: int| bump_opt(s[i], cycle_length))
}

/// The per-tick pass that writes each ordered entity's rank onto the depth
/// axis of its spatial position.
pub struct SpriteOrderSystem;

impl SpriteOrderSystem {
    /// Set the depth axis of every entity that carries both components to
    /// the numeric value of its rank. Entities lacking either component are
    /// left entirely untouched, and no rank is ever changed.
    pub fn run(&mut self, world: &mut World)
        requires
            old(world).wf(),
        ensures
            final(world).wf(),
            final(world).cycle_length_spec() == old(world).cycle_length_spec(),
            final(world).orders_seq() == old(world).orders_seq(),
            final(world).spatials_seq().len() == old(world).spatials_seq().len(),
            forall|i: int| #![auto]
                0 <= i < old(world).num_entities()
                    && old(world).orders_seq()[i] is Some
                    && old(world).spatials_seq()[i] is Some
                ==> final(world).spatials_seq()[i] == Some(
                    Spatial {
                        x: old(world).spatials_seq()[i]->Some_0.x,
                        y: old(world).spatials_seq()[i]->Some_0.y,
                        z: old(world).orders_seq()[i]->Some_0.order as i64,
                    },
                ),
            forall|i: int| #![auto]
                0 <= i < old(world).num_entities()
                    && !(old(world).orders_seq()[i] is Some
                        && old(world).spatials_seq()[i] is Some)
                ==> final(world).spatials_seq()[i] == old(world).spatials_seq()[i],
            depth_matches_order(final(world)),
    {
        let n = world.orders.len();
        let mut e: usize = 0;
        while e < n
            invariant
                old(world).wf(),
                e <= n,
                n == old(world).num_entities(),
                world.cycle_length == old(world).cycle_length,
                world.orders@ == old(world).orders@,
                world.spatials@.len() == old(world).spatials@.len(),
                forall|i: int| #![auto]
                    0 <= i < e
                        && old(world).orders@[i] is Some
                        && old(world).spatials@[i] is Some
                    ==> world.spatials@[i] == Some(
                        Spatial {
                            x: old(world).spatials@[i]->Some_0.x,
                            y: old(world).spatials@[i]->Some_0.y,
                            z: old(world).orders@[i]->Some_0.order as i64,
                        },
                    ),
                forall|i: int| #![auto]
                    0 <= i < e
                        && !(old(world).orders@[i] is Some && old(world).spatials@[i] is Some)
                    ==> world.spatials@[i] == old(world).spatials@[i],
                forall|i: int| #![auto]
                    e <= i < n ==> world.spatials@[i] == old(world).spatials@[i],
            decreases n - e,
        {
            if world.orders[e].is_some() && world.spatials[e].is_some() {
                let rank = world.orders[e].unwrap().order;
                let s = world.spatials[e].unwrap();
                world.spatials.set(e, Some(Spatial { x: s.x, y: s.y, z: rank as i64 }));
            }
            e = e + 1;
        }
    }
}

/// The input-triggered pass: advance every ordered entity's rank in
/// lockstep, one step around the cycle. Spatial positions are untouched,
/// and the range invariant on ranks is preserved.
pub fn cycle_orders(world: &mut World)
    requires
        old(world).wf(),
    ensures
        final(world).wf(),
        final(world).cycle_length_spec() == old(world).cycle_length_spec(),
        final(world).spatials_seq() == old(world).spatials_seq(),
        final(world).orders_seq() == cycled_orders(
            old(world).orders_seq(),
            old(world).cycle_length_spec(),
        ),
{
    let n = world.orders.len();
    let cl = world.cycle_length;
    let mut e: usize = 0;
    while e < n
        invariant
            old(world).wf(),
            e <= n,
            n == old(world).num_entities(),
            cl == old(world).cycle_length,
            world.cycle_length == old(world).cycle_length,
            world.spatials@ == old(world).spatials@,
            world.orders@.len() == n,
            forall|i: int| #![auto]
                0 <= i < e ==> world.orders@[i] == bump_opt(old(world).orders@[i], cl as int),
            forall|i: int| #![auto] e <= i < n ==> world.orders@[i] == old(world).orders@[i],
        decreases n - e,
    {
        match world.orders[e] {
            Some(c) => {
                let mut c2 = c;
                c2.bump_order(cl);
                world.orders.set(e, Some(c2));
            },
            None => {},
        }
        e = e + 1;
    }
    proof {
        assert(world.orders@ =~= cycled_orders(old(world).orders@, old(world).cycle_length as int));
        assert(orders_in_range(world.orders@, world.cycle_length as int));
    }
}

} // verus!
