use sprite_order::components::Spatial;
use sprite_order::components::SpriteOrder;
use sprite_order::scene;
use sprite_order::session::Action;
use sprite_order::session::GameState;
use sprite_order::session::Key;
use sprite_order::session::SessionStatus;
use sprite_order::session::StateEvent;
use sprite_order::session::Trans;
use sprite_order::system;
use sprite_order::world::World;

fn started_session() -> (GameState, World) {
    let mut w = World::new(scene::CYCLE_LENGTH).unwrap();
    let mut g = GameState::default();
    g.on_start(&mut w);
    (g, w)
}

fn snapshot(w: &World) -> Vec<(Option<i32>, Option<Spatial>)> {
    let mut v = Vec::new();
    let mut e = 0;
    while e < w.entity_count() {
        v.push((w.order_of(e), w.spatial_of(e)));
        e += 1;
    }
    v
}

#[test]
fn events_map_to_their_actions() {
    assert_eq!(sprite_order::session::event_action(&StateEvent::CloseRequested), Some(Action::Quit));
    assert_eq!(sprite_order::session::event_action(&StateEvent::KeyDown(Key::Escape)), Some(Action::Quit));
    assert_eq!(
        sprite_order::session::event_action(&StateEvent::KeyDown(Key::Space)),
        Some(Action::AdvanceOrder)
    );
    assert_eq!(sprite_order::session::event_action(&StateEvent::KeyDown(Key::Other)), None);
}

#[test]
fn a_fresh_session_is_running() {
    let (g, _w) = started_session();
    assert_eq!(g.status(), SessionStatus::Running);
}

#[test]
fn scenario_one_trigger_flips_the_two_ranks_and_the_depths_follow() {
    let (mut g, mut w) = started_session();
    let t = g.handle_event(&mut w, StateEvent::KeyDown(Key::Space));
    assert_eq!(t, Trans::Continue);
    assert_eq!(w.order_of(2), Some(1));
    assert_eq!(w.order_of(3), Some(0));
    let t2 = g.update(&mut w);
    assert_eq!(t2, Trans::Continue);
    assert_eq!(w.spatial_of(2).unwrap().z, 1);
    assert_eq!(w.spatial_of(3).unwrap().z, 0);
}

#[test]
fn scenario_two_triggers_restore_the_initial_ranks() {
    let (mut g, mut w) = started_session();
    g.handle_event(&mut w, StateEvent::KeyDown(Key::Space));
    g.handle_event(&mut w, StateEvent::KeyDown(Key::Space));
    assert_eq!(w.order_of(2), Some(0));
    assert_eq!(w.order_of(3), Some(1));
}

#[test]
fn scenario_an_unranked_entity_keeps_its_depth_through_any_ticks() {
    let (mut g, mut w) = started_session();
    let mut ticks = 0;
    while ticks < 5 {
        g.update(&mut w);
        g.handle_event(&mut w, StateEvent::KeyDown(Key::Space));
        ticks += 1;
    }
    // The background and the camera carry no rank: their depths are as
    // assembled, however many ticks have elapsed.
    assert_eq!(w.spatial_of(0), Some(Spatial { x: 0, y: 0, z: 0 }));
    assert_eq!(w.spatial_of(1), Some(Spatial { x: 0, y: 0, z: scene::CAMERA_DEPTH }));
}

#[test]
fn scenario_a_quit_trigger_ends_the_session_at_once() {
    let (mut g, mut w) = started_session();
    g.handle_event(&mut w, StateEvent::KeyDown(Key::Space));
    let t = g.handle_event(&mut w, StateEvent::CloseRequested);
    assert_eq!(t, Trans::Quit);
    assert_eq!(g.status(), SessionStatus::Terminated);
    let before = snapshot(&w);
    // No further tick or cycling touches the store.
    assert_eq!(g.update(&mut w), Trans::Quit);
    assert_eq!(g.handle_event(&mut w, StateEvent::KeyDown(Key::Space)), Trans::Quit);
    assert_eq!(g.update(&mut w), Trans::Quit);
    assert_eq!(snapshot(&w), before);
}

#[test]
fn the_escape_key_quits_like_a_window_close() {
    let (mut g, mut w) = started_session();
    let t = g.handle_event(&mut w, StateEvent::KeyDown(Key::Escape));
    assert_eq!(t, Trans::Quit);
    assert_eq!(g.status(), SessionStatus::Terminated);
}

#[test]
fn an_unbound_key_triggers_nothing() {
    let (mut g, mut w) = started_session();
    let before = snapshot(&w);
    let t = g.handle_event(&mut w, StateEvent::KeyDown(Key::Other));
    assert_eq!(t, Trans::Continue);
    assert_eq!(g.status(), SessionStatus::Running);
    assert_eq!(snapshot(&w), before);
}

#[test]
fn cycling_never_touches_the_spatial_axes() {
    let (mut g, mut w) = started_session();
    g.update(&mut w);
    let before = snapshot(&w);
    g.handle_event(&mut w, StateEvent::KeyDown(Key::Space));
    for (e, (order, spatial)) in snapshot(&w).into_iter().enumerate() {
        let (before_order, before_spatial) = before[e];
        // Only the ranks moved; every spatial component is untouched.
        assert_eq!(spatial, before_spatial);
        assert_eq!(order.is_some(), before_order.is_some());
    }
}

#[test]
fn ticking_never_touches_the_ranks() {
    let (mut g, mut w) = started_session();
    g.handle_event(&mut w, StateEvent::KeyDown(Key::Space));
    let before = snapshot(&w);
    g.update(&mut w);
    for (e, (order, _)) in snapshot(&w).into_iter().enumerate() {
        assert_eq!(order, before[e].0);
    }
}

#[test]
fn a_full_period_of_triggers_round_trips_a_longer_cycle() {
    let mut w = World::new(3).unwrap();
    let mut e = 0;
    while e < 3 {
        let id = w.create_entity();
        w.attach_order(id, SpriteOrder { order: e });
        e += 1;
    }
    let before = snapshot(&w);
    let mut round = 0;
    while round < 3 {
        system::cycle_orders(&mut w);
        round += 1;
    }
    assert_eq!(snapshot(&w), before);
}
