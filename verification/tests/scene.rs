use sprite_order::components::Spatial;
use sprite_order::scene;
use sprite_order::world::World;

fn assembled_world() -> World {
    let mut w = World::new(scene::CYCLE_LENGTH).unwrap();
    scene::add_entities(&mut w);
    w
}

#[test]
fn the_reference_scene_holds_four_entities() {
    let w = assembled_world();
    assert_eq!(w.entity_count(), 4);
}

#[test]
fn the_background_has_a_position_but_no_rank() {
    let w = assembled_world();
    assert_eq!(w.order_of(0), None);
    assert_eq!(w.spatial_of(0), Some(Spatial { x: 0, y: 0, z: 0 }));
}

#[test]
fn the_camera_sits_at_the_fixed_standoff_depth() {
    let w = assembled_world();
    assert_eq!(w.order_of(1), None);
    assert_eq!(w.spatial_of(1), Some(Spatial { x: 0, y: 0, z: scene::CAMERA_DEPTH }));
}

#[test]
fn the_sprites_carry_distinct_initial_ranks() {
    let w = assembled_world();
    assert_eq!(w.order_of(2), Some(0));
    assert_eq!(w.order_of(3), Some(1));
}

#[test]
fn the_sprites_are_spaced_vertically_by_rank() {
    let w = assembled_world();
    assert_eq!(w.spatial_of(2), Some(Spatial { x: 0, y: 0, z: 0 }));
    assert_eq!(w.spatial_of(3), Some(Spatial { x: 0, y: scene::SPRITE_Y_SPACING, z: 0 }));
}
