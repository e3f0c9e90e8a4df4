//! One-time scene assembly: the background, the camera, and the
//! depth-ordered sprites with their initial ranks and positions.

use vstd::prelude::*;
use crate::components::Spatial;
use crate::components::SpriteOrder;
use crate::world::World;

verus! {

/// How many distinct ranks the reference scene cycles through; it equals
/// the number of ordered sprites assembled by `add_entities`.
pub const CYCLE_LENGTH: i32 = 2;

/// Fixed camera standoff on the depth axis, far enough back that every
/// ordered sprite (depth in `[0, cycle_length)`) stays in front of it.
pub const CAMERA_DEPTH: i64 = 100;

/// Vertical spacing between ordered sprites, so they do not fully occlude
/// one another.
pub const SPRITE_Y_SPACING: i64 = 20;

/// Add the background: a spatial position at the origin and no ordering
/// rank, so the depth-projection pass never touches it.
pub fn add_background(world: &mut World)
    requires
        old(world).wf(),
        old(world).num_entities() < usize::MAX,
    ensures
        final(world).wf(),
        final(world).cycle_length_spec() == old(world).cycle_length_spec(),
        final(world).orders_seq() == old(world).orders_seq().push(None),
        final(world).spatials_seq() == old(world).spatials_seq().push(
            Some(Spatial { x: 0, y: 0, z: 0 }),
        ),
{
    let e = world.create_entity();
    world.attach_spatial(e, Spatial::default());
}

/// Add the camera: no ordering rank, and a spatial position set once to the
/// fixed standoff depth, which no pass thereafter modifies.
pub fn add_camera(world: &mut World)
    requires
        old(world).wf(),
        old(world).num_entities() < usize::MAX,
    ensures
        final(world).wf(),
        final(world).cycle_length_spec() == old(world).cycle_length_spec(),
        final(world).orders_seq() == old(world).orders_seq().push(None),
        final(world).spatials_seq() == old(world).spatials_seq().push(
            Some(Spatial { x: 0, y: 0, z: CAMERA_DEPTH }),
        ),
{
    let e = world.create_entity();
    let mut transform = Spatial::default();
    transform.set_z(CAMERA_DEPTH);
    world.attach_spatial(e, transform);
}

/// Add one depth-ordered sprite with the given initial rank. Its vertical
/// position is offset per rank (purely cosmetic); its depth axis starts at
/// a default and is overwritten on the first tick.
pub fn add_sprite(world: &mut World, order: i32)
    requires
        old(world).wf(),
        old(world).num_entities() < usize::MAX,
        0 <= order < old(world).cycle_length_spec(),
    ensures
        final(world).wf(),
        final(world).cycle_length_spec() == old(world).cycle_length_spec(),
        final(world).orders_seq() == old(world).orders_seq().push(
            Some(SpriteOrder { order }),
        ),
        final(world).spatials_seq() == old(world).spatials_seq().push(
            Some(Spatial { x: 0, y: (order * SPRITE_Y_SPACING) as i64, z: 0 }),
        ),
{
    let e = world.create_entity();
    world.attach_order(e, SpriteOrder { order });
    let mut my_transform = Spatial::default();
    my_transform.set_y(order as i64 * SPRITE_Y_SPACING);
    world.attach_spatial(e, my_transform);
}

/// Assemble the whole reference scene: the background, the camera, and two
/// ordered sprites with the distinct initial ranks `0` and `1`.
pub fn add_entities(world: &mut World)
    requires
        old(world).wf(),
        old(world).cycle_length_spec() >= 2,
        old(world).num_entities() + 4 <= usize::MAX,
    ensures
        final(world).wf(),
        final(world).cycle_length_spec() == old(world).cycle_length_spec(),
        final(world).orders_seq() == old(world).orders_seq()
            + seq![
                None,
                None,
                Some(SpriteOrder { order: 0 }),
                Some(SpriteOrder { order: 1 }),
            ],
        final(world).spatials_seq() == old(world).spatials_seq()
            + seq![
                Some(Spatial { x: 0, y: 0, z: 0 }),
                Some(Spatial { x: 0, y: 0, z: CAMERA_DEPTH }),
                Some(Spatial { x: 0, y: 0, z: 0 }),
                Some(Spatial { x: 0, y: SPRITE_Y_SPACING, z: 0 }),
            ],
{
    add_background(world);
    add_camera(world);
    add_sprite(world, 0);
    add_sprite(world, 1);
    proof {
        assert(world.orders@ =~= old(world).orders@
            + seq![
                None,
                None,
                Some(SpriteOrder { order: 0 }),
                Some(SpriteOrder { order: 1 }),
            ]);
        assert(world.spatials@ =~= old(world).spatials@
            + seq![
                Some(Spatial { x: 0, y: 0, z: 0 }),
                Some(Spatial { x: 0, y: 0, z: CAMERA_DEPTH }),
                Some(Spatial { x: 0, y: 0, z: 0 }),
                Some(Spatial { x: 0, y: SPRITE_Y_SPACING, z: 0 }),
            ]);
    }
}

} // verus!
