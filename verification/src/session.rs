//! The session-level state machine: a single `Running` state with the
//! self-transitions tick and advance-order, exiting to `Terminated` on a
//! quit trigger.

use vstd::prelude::*;
use crate::scene;
use crate::system;
use crate::system::SpriteOrderSystem;
use crate::world::World;

verus! {

/// The keys the session reacts to; any other key is reported as `Other`
/// and triggers nothing.
#[derive(Clone, Copy, Debug, PartialEq, Eq, Structural)]
pub enum Key {
    /// The quit key.
    Escape,
    /// The advance-order key.
    Space,
    /// Any key without a bound action.
    Other,
}

/// A discrete edge-triggered input event, delivered at most once per
/// physical edge by the host loop.
#[derive(Clone, Copy, Debug, PartialEq, Eq, Structural)]
pub enum StateEvent {
    /// The window-close trigger.
    CloseRequested,
    /// A key-press edge.
    KeyDown(Key),
}

/// What an event asks the session to do.
#[derive(Clone, Copy, Debug, PartialEq, Eq, Structural)]
pub enum Action {
    /// End the session.
    Quit,
    /// Advance every ordered entity's rank one step around the cycle.
    AdvanceOrder,
}

/// What the session asks of the host loop after handling an event.
#[derive(Clone, Copy, Debug, PartialEq, Eq, Structural)]
pub enum Trans {
    /// Keep running.
    Continue,
    /// Stop the loop; the session is over.
    Quit,
}

/// The two session states.
#[derive(Clone, Copy, Debug, PartialEq, Eq, Structural)]
pub enum SessionStatus {
    /// The session is live: ticks and triggers are acted on.
    Running,
    /// The session is over: nothing further runs.
    Terminated,
}

/// The action an event maps to: window-close and the quit key end the
/// session, the advance key rotates the ordering, anything else is ignored.
pub open spec fn event_action_spec(event: StateEvent) -> Option<Action> {
    match event {
        StateEvent::CloseRequested => Some(Action::Quit),
        StateEvent::KeyDown(Key::Escape) => Some(Action::Quit),
        StateEvent::KeyDown(Key::Space) => Some(Action::AdvanceOrder),
        StateEvent::KeyDown(Key::Other) => None,
    }
}

/// The successor session state for an event: a quit action terminates a
/// running session; everything else leaves the state alone.
pub open spec fn next_status(status: SessionStatus, event: StateEvent) -> SessionStatus {
    match status {
        SessionStatus::Terminated => SessionStatus::Terminated,
        SessionStatus::Running => if event_action_spec(event) == Some(Action::Quit) {
            SessionStatus::Terminated
        } else {
            SessionStatus::Running
        },
    }
}

/// Classify an event, as a run-time decision the host loop can also use.
pub fn event_action(event: &StateEvent) -> (r: Option<Action>)
    ensures
        r == event_action_spec(*event),
{
    match event {
        StateEvent::CloseRequested => Some(Action::Quit),
        StateEvent::KeyDown(Key::Escape) => Some(Action::Quit),
        StateEvent::KeyDown(Key::Space) => Some(Action::AdvanceOrder),
        StateEvent::KeyDown(Key::Other) => None,
    }
}

/// The session driver: holds the machine's state and applies ticks and
/// input events to the shared entity store.
pub struct GameState {
    status: SessionStatus,
}

impl Default for GameState {
    /// A fresh session, in the `Running` state.
    fn default() -> (g: GameState)
        ensures
            g.status_spec() == SessionStatus::Running,
    {
        GameState { status: SessionStatus::Running }
    }
}

impl GameState {
    /// The machine's current state.
    pub closed spec fn status_spec(&self) -> SessionStatus {
        self.status
    }

    /// The machine's current state, as a run-time value.
    pub fn status(&self) -> (r: SessionStatus)
        ensures
            r == self.status_spec(),
    {
        self.status
    }

    /// Session start: assemble the reference scene into the store. The
    /// machine stays in `Running`.
    pub fn on_start(&mut self, world: &mut World)
        requires
            old(world).wf(),
            old(world).cycle_length_spec() >= 2,
            old(world).num_entities() + 4 <= usize::MAX,
        ensures
            final(self).status_spec() == old(self).status_spec(),
            final(world).wf(),
            final(world).cycle_length_spec() == old(world).cycle_length_spec(),
            final(world).orders_seq() == old(world).orders_seq()
                + seq![
                    None,
                    None,
                    Some(crate::components::SpriteOrder { order: 0 }),
                    Some(crate::components::SpriteOrder { order: 1 }),
                ],
            final(world).spatials_seq() == old(world).spatials_seq()
                + seq![
                    Some(crate::components::Spatial { x: 0, y: 0, z: 0 }),
                    Some(crate::components::Spatial { x: 0, y: 0, z: scene::CAMERA_DEPTH }),
                    Some(crate::components::Spatial { x: 0, y: 0, z: 0 }),
                    Some(crate::components::Spatial { x: 0, y: scene::SPRITE_Y_SPACING, z: 0 }),
                ],
    {
        scene::add_entities(world);
    }

    /// Handle one discrete input event. A quit trigger moves a running
    /// session to `Terminated` at once, touching nothing else; the advance
    /// trigger cycles every ordered entity's rank; an unbound event does
    /// nothing. Once terminated, no event mutates the store again.
    pub fn handle_event(&mut self, world: &mut World, event: StateEvent) -> (r: Trans)
        requires
            old(world).wf(),
        ensures
            final(world).wf(),
            final(world).cycle_length_spec() == old(world).cycle_length_spec(),
            final(world).spatials_seq() == old(world).spatials_seq(),
            final(self).status_spec() == next_status(old(self).status_spec(), event),
            r == (if final(self).status_spec() == SessionStatus::Terminated {
                Trans::Quit
            } else {
                Trans::Continue
            }),
            final(world).orders_seq() == (
                if old(self).status_spec() == SessionStatus::Running
                    && event_action_spec(event) == Some(Action::AdvanceOrder) {
                    system::cycled_orders(old(world).orders_seq(), old(world).cycle_length_spec())
                } else {
                    old(world).orders_seq()
                }
            ),
    {
        match self.status {
            SessionStatus::Terminated => Trans::Quit,
            SessionStatus::Running => {
                match event_action(&event) {
                    Some(Action::Quit) => {
                        self.status = SessionStatus::Terminated;
                        Trans::Quit
                    },
                    Some(Action::AdvanceOrder) => {
                        // Run through the sprite orders and bump them.
                        system::cycle_orders(world);
                        Trans::Continue
                    },
                    None => Trans::Continue,
                }
            },
        }
    }

    /// One simulation tick. While running, the depth-projection pass makes
    /// every ordered entity's depth equal its rank; once terminated, the
    /// store is left exactly as it was.
    pub fn update(&mut self, world: &mut World) -> (r: Trans)
        requires
            old(world).wf(),
        ensures
            final(world).wf(),
            final(self).status_spec() == old(self).status_spec(),
            final(world).cycle_length_spec() == old(world).cycle_length_spec(),
            final(world).orders_seq() == old(world).orders_seq(),
            final(world).spatials_seq().len() == old(world).spatials_seq().len(),
            old(self).status_spec() == SessionStatus::Terminated ==> final(world).spatials_seq()
                == old(world).spatials_seq(),
            old(self).status_spec() == SessionStatus::Running ==> {
                &&& system::depth_matches_order(final(world))
                &&& forall|i: int| #![auto]
                    0 <= i < old(world).num_entities()
                        && old(world).orders_seq()[i] is Some
                        && old(world).spatials_seq()[i] is Some
                    ==> {
                        &&& final(world).spatials_seq()[i]->Some_0.x
                            == old(world).spatials_seq()[i]->Some_0.x
                        &&& final(world).spatials_seq()[i]->Some_0.y
                            == old(world).spatials_seq()[i]->Some_0.y
                        &&& final(world).spatials_seq()[i] is Some
                    }
                &&& forall|i: int| #![auto]
                    0 <= i < old(world).num_entities()
                        && !(old(world).orders_seq()[i] is Some
                            && old(world).spatials_seq()[i] is Some)
                    ==> final(world).spatials_seq()[i] == old(world).spatials_seq()[i]
            },
            r == (if old(self).status_spec() == SessionStatus::Terminated {
                Trans::Quit
            } else {
                Trans::Continue
            }),
    {
        match self.status {
            SessionStatus::Terminated => Trans::Quit,
            SessionStatus::Running => {
                let mut sprite_order_system = SpriteOrderSystem;
                sprite_order_system.run(world);
                Trans::Continue
            },
        }
    }
}

} // verus!
