//! Component kinds: the closed set of data attached to entities.

use vstd::prelude::*;

verus! {

/// Colour tag shared between a box and its matching box spot. It is used
/// only to select assets; the rendering pass never compares colours.
#[derive(Clone, Copy, PartialEq, Eq, Structural, Debug)]
pub enum BoxColour {
    Red,
    Blue,
}

/// The lower-case name of a colour, as it appears inside asset paths.
pub open spec fn colour_name_spec(c: BoxColour) -> Seq<char> {
    match c {
        BoxColour::Red => "red"@,
        BoxColour::Blue => "blue"@,
    }
}

impl BoxColour {
    /// Lower-case name of the colour.
    pub fn name(&self) -> (r: &'static str)
        ensures
            r@ == colour_name_spec(*self),
    {
        match self {
            BoxColour::Red => "red",
            BoxColour::Blue => "blue",
        }
    }
}

/// Grid position: `x`/`y` are cell coordinates, `z` is the draw layer.
/// A higher layer draws later, i.e. on top, within the same frame.
#[derive(Clone, Copy, PartialEq, Eq, Structural, Debug)]
pub struct Position {
    pub x: u8,
    pub y: u8,
    pub z: u8,
}

/// Visual representation: a reference to a drawable asset.
#[derive(Clone, Debug)]
pub struct Renderable {
    pub path: String,
}

/// Marker attached to wall entities.
#[derive(Clone, Copy, PartialEq, Eq, Structural, Debug)]
pub struct Wall {}

/// Marker attached to the player entity.
#[derive(Clone, Copy, PartialEq, Eq, Structural, Debug)]
pub struct Player {}

/// Presence marker: the entity may be relocated by a push.
#[derive(Clone, Copy, PartialEq, Eq, Structural, Debug)]
pub struct Movable {}

/// Presence marker: the entity may never be relocated.
#[derive(Clone, Copy, PartialEq, Eq, Structural, Debug)]
pub struct Immovable {}

/// A pushable box, tagged with its colour.
#[derive(Clone, Copy, PartialEq, Eq, Structural, Debug)]
pub struct Box {
    pub colour: BoxColour,
}

/// A goal location for a box of the same colour.
#[derive(Clone, Copy, PartialEq, Eq, Structural, Debug)]
pub struct BoxSpot {
    pub colour: BoxColour,
}

} // verus!

use crate::world::{Registry, World};

verus! {

/// Register every component kind of the closed set. Factories and joins
/// require their kinds to be registered; nothing else about the world moves.
pub fn register_components(world: &mut World)
    ensures
        final(world).registry.all(),
        final(world).positions == old(world).positions,
        final(world).renderables == old(world).renderables,
        final(world).players == old(world).players,
        final(world).walls == old(world).walls,
        final(world).boxes == old(world).boxes,
        final(world).box_spots == old(world).box_spots,
        final(world).movables == old(world).movables,
        final(world).immovables == old(world).immovables,
        final(world).input_queue == old(world).input_queue,
        final(world).gameplay == old(world).gameplay,
        final(world).time == old(world).time,
{
    world.registry = Registry {
        position: true,
        renderable: true,
        player: true,
        wall: true,
        boxes: true,
        box_spots: true,
        movable: true,
        immovable: true,
    };
}

} // verus!
