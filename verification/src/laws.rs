//! Laws of the order-cycling operation: the rank range invariant holds
//! after any number of cycling triggers, and cycling `cycle_length` times
//! is the identity on the ordering column.

use vstd::prelude::*;
use vstd::arithmetic::div_mod::lemma_add_mod_noop_right;
use vstd::arithmetic::div_mod::lemma_mod_add_multiples_vanish;
use vstd::arithmetic::div_mod::lemma_mod_division_less_than_divisor;
use vstd::arithmetic::div_mod::lemma_small_mod;
use crate::components::SpriteOrder;
use crate::system::bump_opt;
use crate::system::cycled_orders;
use crate::world::orders_in_range;

verus! {

/// The ordering column after `k` cycling triggers.
pub open spec fn cycled_orders_n(
    s: Seq<Option<SpriteOrder>>,
    cycle_length: int,
    k: nat,
) -> Seq<Option<SpriteOrder>>
    decreases k,
{
    if k == 0 {
        s
    } else {
        cycled_orders(cycled_orders_n(s, cycle_length, (k - 1) as nat), cycle_length)
    }
}

/// A rank after `k` single cycling steps.
pub open spec fn bump_n(order: int, cycle_length: int, k: nat) -> int
    decreases k,
{
    if k == 0 {
        order
    } else {
        SpriteOrder::bump_spec(bump_n(order, cycle_length, (k - 1) as nat), cycle_length)
    }
}

/// A rank advanced one or more single steps lands exactly on `(order + k)`
/// modulo the cycle length.
pub proof fn lemma_bump_accumulates(order: int, cycle_length: int, k: nat)
    requires
        cycle_length > 0,
        k >= 1,
    ensures
        bump_n(order, cycle_length, k) == (order + k) % cycle_length,
    decreases k,
{
    if k == 1 {
        assert(bump_n(order, cycle_length, 0) == order);
        assert(bump_n(order, cycle_length, 1) == SpriteOrder::bump_spec(order, cycle_length));
    } else {
        lemma_bump_accumulates(order, cycle_length, (k - 1) as nat);
        lemma_mod_division_less_than_divisor(order + (k - 1), cycle_length);
        lemma_add_mod_noop_right(1, order + (k - 1), cycle_length);
        lemma_mod_division_less_than_divisor(order + k, cycle_length);
    }
}

/// Range invariant: however many cycling triggers have fired, every rank
/// present in the ordering column stays within `[0, cycle_length)`.
pub proof fn lemma_orders_in_range_after_cycles(
    s: Seq<Option<SpriteOrder>>,
    cycle_length: int,
    k: nat,
)
    requires
        0 < cycle_length <= i32::MAX,
        orders_in_range(s, cycle_length),
    ensures
        orders_in_range(cycled_orders_n(s, cycle_length, k), cycle_length),
    decreases k,
{
    if k > 0 {
        lemma_orders_in_range_after_cycles(s, cycle_length, (k - 1) as nat);
        let prev = cycled_orders_n(s, cycle_length, (k - 1) as nat);
        let t = cycled_orders(prev, cycle_length);
        assert forall|i: int|
            0 <= i < t.len() && #[trigger] t[i] is Some
            implies 0 <= t[i]->Some_0.order < cycle_length by {
            assert(t[i] == bump_opt(prev[i], cycle_length));
            if prev[i] is Some {
                assert(0 <= prev[i]->Some_0.order < cycle_length);
                lemma_mod_division_less_than_divisor(
                    prev[i]->Some_0.order + 1,
                    cycle_length,
                );
            }
        }
    }
}

/// Periodicity: firing the cycling trigger `cycle_length` times returns
/// every ordered entity's rank to its starting value, and leaves entities
/// without a rank without one; the whole ordering column round-trips.
pub proof fn lemma_cycle_periodicity(s: Seq<Option<SpriteOrder>>, cycle_length: int)
    requires
        0 < cycle_length <= i32::MAX,
        orders_in_range(s, cycle_length),
    ensures
        cycled_orders_n(s, cycle_length, cycle_length as nat) == s,
{
    lemma_cycled_orders_n_index(s, cycle_length, cycle_length as nat);
    let t = cycled_orders_n(s, cycle_length, cycle_length as nat);
    assert forall|i: int| 0 <= i < s.len() implies #[trigger] t[i] == s[i] by {
        if s[i] is Some {
            let o = s[i]->Some_0.order as int;
            lemma_bump_accumulates(o, cycle_length, cycle_length as nat);
            lemma_mod_add_multiples_vanish(o, cycle_length);
            lemma_small_mod(o as nat, cycle_length as nat);
        }
    }
    assert(t =~= s);
}

/// Index-wise view of `cycled_orders_n`: the column keeps its length, a
/// rankless entry stays rankless, and a ranked entry carries its rank
/// through `k` single steps.
pub proof fn lemma_cycled_orders_n_index(s: Seq<Option<SpriteOrder>>, cycle_length: int, k: nat)
    requires
        0 < cycle_length <= i32::MAX,
    ensures
        cycled_orders_n(s, cycle_length, k).len() == s.len(),
        forall|i: int| #![auto]
            0 <= i < s.len() && s[i] is None
                ==> cycled_orders_n(s, cycle_length, k)[i] is None,
        forall|i: int| #![auto]
            0 <= i < s.len() && s[i] is Some
                ==> cycled_orders_n(s, cycle_length, k)[i] == Some(
                    SpriteOrder {
                        order: bump_n(s[i]->Some_0.order as int, cycle_length, k) as i32,
                    },
                ),
    decreases k,
{
    if k > 0 {
        lemma_cycled_orders_n_index(s, cycle_length, (k - 1) as nat);
        let prev = cycled_orders_n(s, cycle_length, (k - 1) as nat);
        assert forall|i: int| #![auto] 0 <= i < s.len() && s[i] is Some
            implies cycled_orders_n(s, cycle_length, k)[i] == Some(
                SpriteOrder {
                    order: bump_n(s[i]->Some_0.order as int, cycle_length, k) as i32,
                },
            ) by {
            let o = s[i]->Some_0.order as int;
            let prev_o = bump_n(o, cycle_length, (k - 1) as nat);
            lemma_bump_n_in_bounds(o, cycle_length, (k - 1) as nat);
            assert(prev[i] == Some(SpriteOrder { order: prev_o as i32 }));
            assert(cycled_orders_n(s, cycle_length, k)[i] == bump_opt(prev[i], cycle_length));
            lemma_mod_division_less_than_divisor(prev_o + 1, cycle_length);
        }
    }
}

/// A rank that starts as an `i32` is still representable as an `i32` after
/// any number of single cycling steps.
pub proof fn lemma_bump_n_in_bounds(order: int, cycle_length: int, k: nat)
    requires
        0 < cycle_length <= i32::MAX,
        i32::MIN <= order <= i32::MAX,
    ensures
        bump_n(order, cycle_length, k) == (bump_n(order, cycle_length, k) as i32),
    decreases k,
{
    if k > 0 {
        lemma_bump_n_in_bounds(order, cycle_length, (k - 1) as nat);
        lemma_mod_division_less_than_divisor(
            bump_n(order, cycle_length, (k - 1) as nat) + 1,
            cycle_length,
        );
    }
}

} // verus!
