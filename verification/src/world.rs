//! The entity store: an arena of entities keyed by an integer id, with the
//! two components held in parallel columns indexed by that id.

use vstd::prelude::*;
use crate::components::Spatial;
use crate::components::SpriteOrder;

verus! {

/// Rejected configuration at store construction.
#[derive(Clone, Copy, Debug, PartialEq, Eq, Structural)]
pub enum ConfigError {
    /// The cycle length must be positive: it is the modulus bounding ranks.
    NonPositiveCycleLength,
}

/// Every ordering rank present in `s` lies in `[0, cycle_length)`.
pub open spec fn orders_in_range(s: Seq<Option<SpriteOrder>>, cycle_length: int) -> bool {
    forall|i: int| #![auto]
        0 <= i < s.len() && s[i] is Some ==> 0 <= s[i]->Some_0.order < cycle_length
}

/// The shared store of entities and their components. An entity id is an
/// index into the two component columns; a `None` entry means the entity
/// does not carry that component.
pub struct World {
    pub cycle_length: i32,
    pub orders: Vec<Option<SpriteOrder>>,
    pub spatials: Vec<Option<Spatial>>,
}

impl World {
    /// The modulus bounding ordering ranks, fixed at construction.
    pub open spec fn cycle_length_spec(&self) -> int {
        self.cycle_length as int
    }

    /// The ordering column: entry `e` is entity `e`'s rank, if it has one.
    pub open spec fn orders_seq(&self) -> Seq<Option<SpriteOrder>> {
        self.orders@
    }

    /// The spatial column: entry `e` is entity `e`'s position, if it has one.
    pub open spec fn spatials_seq(&self) -> Seq<Option<Spatial>> {
        self.spatials@
    }

    /// How many entities have been created.
    pub open spec fn num_entities(&self) -> nat {
        self.orders_seq().len()
    }

    /// Well-formedness: a positive cycle length, component columns of equal
    /// length, and every rank within `[0, cycle_length)`.
    pub open spec fn wf(&self) -> bool {
        &&& self.cycle_length_spec() > 0
        &&& self.orders_seq().len() == self.spatials_seq().len()
        &&& orders_in_range(self.orders_seq(), self.cycle_length_spec())
    }

    /// Construct an empty store. A non-positive cycle length is refused:
    /// it would leave the rank arithmetic with no valid modulus.
    pub fn new(cycle_length: i32) -> (r: Result<World, ConfigError>)
        ensures
            cycle_length > 0 ==> (r matches Ok(w)
                && w.wf()
                && w.cycle_length_spec() == cycle_length
                && w.num_entities() == 0),
            cycle_length <= 0 ==> r === Err(ConfigError::NonPositiveCycleLength),
    {
        if cycle_length <= 0 {
            Err(ConfigError::NonPositiveCycleLength)
        } else {
            Ok(World { cycle_length, orders: Vec::new(), spatials: Vec::new() })
        }
    }

    /// The cycle length handed to the constructor.
    pub fn cycle_length(&self) -> (r: i32)
        ensures
            r == self.cycle_length_spec(),
    {
        self.cycle_length
    }

    /// How many entities have been created, as a run-time value.
    pub fn entity_count(&self) -> (r: usize)
        requires
            self.wf(),
        ensures
            r == self.num_entities(),
    {
        self.orders.len()
    }

    /// Create a fresh entity carrying no components yet; its id is returned.
    pub fn create_entity(&mut self) -> (e: usize)
        requires
            old(self).num_entities() < usize::MAX,
        ensures
            e == old(self).num_entities(),
            final(self).cycle_length_spec() == old(self).cycle_length_spec(),
            final(self).orders_seq() == old(self).orders_seq().push(None),
            final(self).spatials_seq() == old(self).spatials_seq().push(None),
            old(self).wf() ==> final(self).wf(),
    {
        let e = self.orders.len();
        self.orders.push(None);
        self.spatials.push(None);
        e
    }

    /// Attach (or replace) entity `e`'s ordering rank. The rank must respect
    /// the store's modulus, so the range invariant survives.
    pub fn attach_order(&mut self, e: usize, c: SpriteOrder)
        requires
            old(self).wf(),
            e < old(self).num_entities(),
            0 <= c.order < old(self).cycle_length_spec(),
        ensures
            final(self).cycle_length_spec() == old(self).cycle_length_spec(),
            final(self).orders_seq() == old(self).orders_seq().update(e as int, Some(c)),
            final(self).spatials_seq() == old(self).spatials_seq(),
            final(self).wf(),
    {
        self.orders.set(e, Some(c));
    }

    /// Attach (or replace) entity `e`'s spatial position.
    pub fn attach_spatial(&mut self, e: usize, s: Spatial)
        requires
            old(self).wf(),
            e < old(self).num_entities(),
        ensures
            final(self).cycle_length_spec() == old(self).cycle_length_spec(),
            final(self).orders_seq() == old(self).orders_seq(),
            final(self).spatials_seq() == old(self).spatials_seq().update(e as int, Some(s)),
            final(self).wf(),
    {
        self.spatials.set(e, Some(s));
    }

    /// Read entity `e`'s ordering rank, if it carries one.
    pub fn order_of(&self, e: usize) -> (r: Option<i32>)
        requires
            self.wf(),
            e < self.num_entities(),
        ensures
            r is Some <==> self.orders_seq()[e as int] is Some,
            r is Some ==> r->Some_0 == self.orders_seq()[e as int]->Some_0.order,
    {
        match self.orders[e] {
            Some(c) => Some(c.order),
            None => None,
        }
    }

    /// Read entity `e`'s spatial position, if it carries one.
    pub fn spatial_of(&self, e: usize) -> (r: Option<Spatial>)
        requires
            self.wf(),
            e < self.num_entities(),
        ensures
            r == self.spatials_seq()[e as int],
    {
        self.spatials[e]
    }
}

} // verus!
