//! Entity factories: one construction function per archetype, each fixing
//! the archetype's draw layer, asset and markers.

use vstd::prelude::*;

use crate::components::{Box, BoxColour, BoxSpot, Position, Renderable};
use crate::world::{ren_view, World};

verus! {

/// Draw layer of background floor tiles.
pub const FLOOR_LAYER: u8 = 5;

/// Draw layer of box spots (goals), below the objects that may cover them.
pub const GOAL_LAYER: u8 = 9;

/// Draw layer of walls, boxes and the player.
pub const OBJECT_LAYER: u8 = 10;

/// Asset of a wall.
pub open spec fn wall_asset_spec() -> Seq<char> {
    "/images/wall.png"@
}

/// Asset of a floor tile.
pub open spec fn floor_asset_spec() -> Seq<char> {
    "/images/floor.png"@
}

/// Asset of the player.
pub open spec fn player_asset_spec() -> Seq<char> {
    "/images/player.png"@
}

/// Asset of a box of the given colour.
pub open spec fn box_asset_spec(colour: BoxColour) -> Seq<char> {
    match colour {
        BoxColour::Red => "/images/box_red.png"@,
        BoxColour::Blue => "/images/box_blue.png"@,
    }
}

/// Asset of a box spot of the given colour.
pub open spec fn box_spot_asset_spec(colour: BoxColour) -> Seq<char> {
    match colour {
        BoxColour::Red => "/images/box_spot_red.png"@,
        BoxColour::Blue => "/images/box_spot_blue.png"@,
    }
}

/// The colour-parameterized box asset.
pub fn box_asset(colour: BoxColour) -> (r: String)
    ensures
        r@ == box_asset_spec(colour),
{
    match colour {
        BoxColour::Red => "/images/box_red.png".to_owned(),
        BoxColour::Blue => "/images/box_blue.png".to_owned(),
    }
}

/// The colour-parameterized box-spot asset.
pub fn box_spot_asset(colour: BoxColour) -> (r: String)
    ensures
        r@ == box_spot_asset_spec(colour),
{
    match colour {
        BoxColour::Red => "/images/box_spot_red.png".to_owned(),
        BoxColour::Blue => "/images/box_spot_blue.png".to_owned(),
    }
}

/// Colour selection round-trips into the assets: a box and a box spot of one
/// colour get distinct assets, and distinct colours never share an asset,
/// neither among boxes nor among box spots.
pub proof fn lemma_colour_assets(colour: BoxColour, other: BoxColour)
    ensures
        box_asset_spec(colour) != box_spot_asset_spec(colour),
        colour != other ==> box_asset_spec(colour) != box_asset_spec(other),
        colour != other ==> box_spot_asset_spec(colour) != box_spot_asset_spec(other),
{
    reveal_strlit("/images/box_red.png");
    reveal_strlit("/images/box_blue.png");
    reveal_strlit("/images/box_spot_red.png");
    reveal_strlit("/images/box_spot_blue.png");
    assert(box_asset_spec(BoxColour::Red).len() == 19);
    assert(box_asset_spec(BoxColour::Blue).len() == 20);
    assert(box_spot_asset_spec(BoxColour::Red).len() == 24);
    assert(box_spot_asset_spec(BoxColour::Blue).len() == 25);
}

/// A wall: an immovable obstacle on the object layer. The caller-supplied
/// layer is overridden by the archetype's constant.
pub fn create_wall(world: &mut World, position: Position)
    requires
        old(world).wf(),
        old(world).registry.position,
        old(world).registry.renderable,
        old(world).registry.immovable,
    ensures
        final(world).wf(),
        final(world).positions@ == old(world).positions@.push(
            Option::Some(Position { x: position.x, y: position.y, z: OBJECT_LAYER }),
        ),
        final(world).rens() == old(world).rens().push(Option::Some(wall_asset_spec())),
        final(world).players@ == old(world).players@.push(false),
        final(world).walls@ == old(world).walls@.push(false),
        final(world).boxes@ == old(world).boxes@.push(Option::None),
        final(world).box_spots@ == old(world).box_spots@.push(Option::None),
        final(world).movables@ == old(world).movables@.push(false),
        final(world).immovables@ == old(world).immovables@.push(true),
        final(world).registry == old(world).registry,
        final(world).input_queue == old(world).input_queue,
        final(world).gameplay == old(world).gameplay,
        final(world).time == old(world).time,
{
    let ren = Renderable { path: "/images/wall.png".to_owned() };
    proof {
        assert(ren_view(Option::Some(ren)) == Option::Some(wall_asset_spec()));
    }
    world.create_entity(
        Some(Position { x: position.x, y: position.y, z: OBJECT_LAYER }),
        Some(ren),
        false,
        false,
        None,
        None,
        false,
        true,
    );
}

/// A floor tile: background on the floor layer, no markers.
pub fn create_floor(world: &mut World, position: Position)
    requires
        old(world).wf(),
        old(world).registry.position,
        old(world).registry.renderable,
    ensures
        final(world).wf(),
        final(world).positions@ == old(world).positions@.push(
            Option::Some(Position { x: position.x, y: position.y, z: FLOOR_LAYER }),
        ),
        final(world).rens() == old(world).rens().push(Option::Some(floor_asset_spec())),
        final(world).players@ == old(world).players@.push(false),
        final(world).walls@ == old(world).walls@.push(false),
        final(world).boxes@ == old(world).boxes@.push(Option::None),
        final(world).box_spots@ == old(world).box_spots@.push(Option::None),
        final(world).movables@ == old(world).movables@.push(false),
        final(world).immovables@ == old(world).immovables@.push(false),
        final(world).registry == old(world).registry,
        final(world).input_queue == old(world).input_queue,
        final(world).gameplay == old(world).gameplay,
        final(world).time == old(world).time,
{
    let ren = Renderable { path: "/images/floor.png".to_owned() };
    proof {
        assert(ren_view(Option::Some(ren)) == Option::Some(floor_asset_spec()));
    }
    world.create_entity(
        Some(Position { x: position.x, y: position.y, z: FLOOR_LAYER }),
        Some(ren),
        false,
        false,
        None,
        None,
        false,
        false,
    );
}

/// A pushable box of the given colour, on the object layer, movable.
pub fn create_box(world: &mut World, position: Position, colour: BoxColour)
    requires
        old(world).wf(),
        old(world).registry.position,
        old(world).registry.renderable,
        old(world).registry.boxes,
        old(world).registry.movable,
    ensures
        final(world).wf(),
        final(world).positions@ == old(world).positions@.push(
            Option::Some(Position { x: position.x, y: position.y, z: OBJECT_LAYER }),
        ),
        final(world).rens() == old(world).rens().push(Option::Some(box_asset_spec(colour))),
        final(world).players@ == old(world).players@.push(false),
        final(world).walls@ == old(world).walls@.push(false),
        final(world).boxes@ == old(world).boxes@.push(Option::Some(Box { colour })),
        final(world).box_spots@ == old(world).box_spots@.push(Option::None),
        final(world).movables@ == old(world).movables@.push(true),
        final(world).immovables@ == old(world).immovables@.push(false),
        final(world).registry == old(world).registry,
        final(world).input_queue == old(world).input_queue,
        final(world).gameplay == old(world).gameplay,
        final(world).time == old(world).time,
{
    let ren = Renderable { path: box_asset(colour) };
    proof {
        assert(ren_view(Option::Some(ren)) == Option::Some(box_asset_spec(colour)));
    }
    world.create_entity(
        Some(Position { x: position.x, y: position.y, z: OBJECT_LAYER }),
        Some(ren),
        false,
        false,
        Some(Box { colour }),
        None,
        true,
        false,
    );
}

/// A box spot (goal) of the given colour, on its own layer below objects.
pub fn create_box_spot(world: &mut World, position: Position, colour: BoxColour)
    requires
        old(world).wf(),
        old(world).registry.position,
        old(world).registry.renderable,
        old(world).registry.box_spots,
    ensures
        final(world).wf(),
        final(world).positions@ == old(world).positions@.push(
            Option::Some(Position { x: position.x, y: position.y, z: GOAL_LAYER }),
        ),
        final(world).rens() == old(world).rens().push(Option::Some(box_spot_asset_spec(colour))),
        final(world).players@ == old(world).players@.push(false),
        final(world).walls@ == old(world).walls@.push(false),
        final(world).boxes@ == old(world).boxes@.push(Option::None),
        final(world).box_spots@ == old(world).box_spots@.push(Option::Some(BoxSpot { colour })),
        final(world).movables@ == old(world).movables@.push(false),
        final(world).immovables@ == old(world).immovables@.push(false),
        final(world).registry == old(world).registry,
        final(world).input_queue == old(world).input_queue,
        final(world).gameplay == old(world).gameplay,
        final(world).time == old(world).time,
{
    let ren = Renderable { path: box_spot_asset(colour) };
    proof {
        assert(ren_view(Option::Some(ren)) == Option::Some(box_spot_asset_spec(colour)));
    }
    world.create_entity(
        Some(Position { x: position.x, y: position.y, z: GOAL_LAYER }),
        Some(ren),
        false,
        false,
        None,
        Some(BoxSpot { colour }),
        false,
        false,
    );
}

/// The player: on the object layer, marked as player and movable.
pub fn create_player(world: &mut World, position: Position)
    requires
        old(world).wf(),
        old(world).registry.position,
        old(world).registry.renderable,
        old(world).registry.player,
        old(world).registry.movable,
    ensures
        final(world).wf(),
        final(world).positions@ == old(world).positions@.push(
            Option::Some(Position { x: position.x, y: position.y, z: OBJECT_LAYER }),
        ),
        final(world).rens() == old(world).rens().push(Option::Some(player_asset_spec())),
        final(world).players@ == old(world).players@.push(true),
        final(world).walls@ == old(world).walls@.push(false),
        final(world).boxes@ == old(world).boxes@.push(Option::None),
        final(world).box_spots@ == old(world).box_spots@.push(Option::None),
        final(world).movables@ == old(world).movables@.push(true),
        final(world).immovables@ == old(world).immovables@.push(false),
        final(world).registry == old(world).registry,
        final(world).input_queue == old(world).input_queue,
        final(world).gameplay == old(world).gameplay,
        final(world).time == old(world).time,
{
    let ren = Renderable { path: "/images/player.png".to_owned() };
    proof {
        assert(ren_view(Option::Some(ren)) == Option::Some(player_asset_spec()));
    }
    world.create_entity(
        Some(Position { x: position.x, y: position.y, z: OBJECT_LAYER }),
        Some(ren),
        true,
        false,
        None,
        None,
        true,
        false,
    );
}

} // verus!
