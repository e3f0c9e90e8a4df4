use sprite_order::components::Spatial;
use sprite_order::components::SpriteOrder;

#[test]
fn bump_advances_and_wraps_in_a_two_cycle() {
    let mut c = SpriteOrder { order: 0 };
    c.bump_order(2);
    assert_eq!(c.order, 1);
    c.bump_order(2);
    assert_eq!(c.order, 0);
}

#[test]
fn bump_advances_within_a_longer_cycle() {
    let mut c = SpriteOrder { order: 5 };
    c.bump_order(7);
    assert_eq!(c.order, 6);
    c.bump_order(7);
    assert_eq!(c.order, 0);
}

#[test]
fn bump_uses_true_modulo_for_a_negative_rank() {
    let mut c = SpriteOrder { order: -3 };
    c.bump_order(4);
    // (-3 + 1) modulo 4 as true (Euclidean) modulo is 2, never -2.
    assert_eq!(c.order, 2);
}

#[test]
fn bump_handles_the_largest_rank_without_overflow() {
    let mut c = SpriteOrder { order: i32::MAX };
    c.bump_order(10);
    // (2147483647 + 1) modulo 10.
    assert_eq!(c.order, 8);
}

#[test]
fn bump_handles_the_smallest_rank() {
    let mut c = SpriteOrder { order: i32::MIN };
    c.bump_order(3);
    // (-2147483648 + 1) modulo 3: -2147483647 = -715827883 * 3 + 2.
    assert_eq!(c.order, 2);
}

#[test]
fn cycle_of_one_pins_every_rank_to_zero() {
    let mut c = SpriteOrder { order: 0 };
    c.bump_order(1);
    assert_eq!(c.order, 0);
}

#[test]
fn spatial_starts_at_the_origin() {
    let s = Spatial::default();
    assert_eq!(s.x, 0);
    assert_eq!(s.y, 0);
    assert_eq!(s.z, 0);
}

#[test]
fn spatial_axis_setters_leave_the_other_axes_alone() {
    let mut s = Spatial::default();
    s.set_y(40);
    s.set_z(7);
    assert_eq!(s.x, 0);
    assert_eq!(s.y, 40);
    assert_eq!(s.z, 7);
}
