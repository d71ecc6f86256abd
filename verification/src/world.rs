//! World state: the entity registry, one store per component kind, and the
//! shared singleton resources.
//!
//! Entities are opaque indices. Every component store is an index-addressed
//! table of the same length; entity `e` carries component kind `K` exactly
//! when slot `e` of `K`'s store is occupied.

use vstd::prelude::*;

use crate::components::{Box, BoxSpot, Position, Renderable};
use crate::resources::{Gameplay, InputQueue, Time};

verus! {

/// The asset path carried by an optional visual component.
pub open spec fn ren_view(o: Option<Renderable>) -> Option<Seq<char>> {
    match o {
        Option::Some(r) => Option::Some(r.path@),
        Option::None => Option::None,
    }
}

/// Which component kinds have been registered. A kind must be registered
/// before any entity may carry it; requesting an unregistered kind is a
/// contract violation, not a recoverable runtime condition.
#[derive(Clone, Copy, PartialEq, Eq, Structural, Debug)]
pub struct Registry {
    pub position: bool,
    pub renderable: bool,
    pub player: bool,
    pub wall: bool,
    pub boxes: bool,
    pub box_spots: bool,
    pub movable: bool,
    pub immovable: bool,
}

impl Registry {
    /// The registry with no kind registered.
    pub open spec fn none_spec() -> Registry {
        Registry {
            position: false,
            renderable: false,
            player: false,
            wall: false,
            boxes: false,
            box_spots: false,
            movable: false,
            immovable: false,
        }
    }

    /// No kind registered yet.
    pub fn new() -> (r: Registry)
        ensures
            r == Registry::none_spec(),
    {
        Registry {
            position: false,
            renderable: false,
            player: false,
            wall: false,
            boxes: false,
            box_spots: false,
            movable: false,
            immovable: false,
        }
    }

    /// Every kind of the closed set is registered.
    pub open spec fn all(self) -> bool {
        &&& self.position
        &&& self.renderable
        &&& self.player
        &&& self.wall
        &&& self.boxes
        &&& self.box_spots
        &&& self.movable
        &&& self.immovable
    }
}

/// The world: per-kind component stores of equal length plus the shared
/// resources. All state of the game lives here; entities are indices.
#[derive(Clone, Debug)]
pub struct World {
    pub registry: Registry,
    pub positions: Vec<Option<Position>>,
    pub renderables: Vec<Option<Renderable>>,
    pub players: Vec<bool>,
    pub walls: Vec<bool>,
    pub boxes: Vec<Option<Box>>,
    pub box_spots: Vec<Option<BoxSpot>>,
    pub movables: Vec<bool>,
    pub immovables: Vec<bool>,
    pub input_queue: InputQueue,
    pub gameplay: Gameplay,
    pub time: Time,
}

impl World {
    /// Well-formedness: every store covers the same entities.
    pub open spec fn wf(self) -> bool {
        &&& self.renderables@.len() == self.positions@.len()
        &&& self.players@.len() == self.positions@.len()
        &&& self.walls@.len() == self.positions@.len()
        &&& self.boxes@.len() == self.positions@.len()
        &&& self.box_spots@.len() == self.positions@.len()
        &&& self.movables@.len() == self.positions@.len()
        &&& self.immovables@.len() == self.positions@.len()
    }

    /// How many entities exist.
    pub open spec fn entity_count(self) -> nat {
        self.positions@.len()
    }

    /// The visual store seen as a sequence of optional asset paths.
    pub open spec fn rens(self) -> Seq<Option<Seq<char>>> {
        self.renderables@.map(|i: int, o: Option<Renderable>| ren_view(o))
    }

    /// A fresh world: no entities, nothing registered, default resources.
    pub fn new() -> (w: World)
        ensures
            w.wf(),
            w.entity_count() == 0,
            w.registry == Registry::none_spec(),
            w.input_queue.keys_pressed@ == Seq::<u32>::empty(),
            w.gameplay.state == crate::resources::GameplayState::Playing && w.gameplay.moves_count == 0,
            w.time.delta == 0,
    {
        World {
            registry: Registry::new(),
            positions: Vec::new(),
            renderables: Vec::new(),
            players: Vec::new(),
            walls: Vec::new(),
            boxes: Vec::new(),
            box_spots: Vec::new(),
            movables: Vec::new(),
            immovables: Vec::new(),
            input_queue: InputQueue::new(),
            gameplay: Gameplay::new(),
            time: Time { delta: 0 },
        }
    }

    /// Runtime mirror of `wf`, so unverified callers can check the
    /// precondition of the verified operations before calling them.
    pub fn wf_check(&self) -> (b: bool)
        ensures
            b == self.wf(),
    {
        let n = self.positions.len();
        self.renderables.len() == n && self.players.len() == n && self.walls.len() == n
            && self.boxes.len() == n && self.box_spots.len() == n && self.movables.len() == n
            && self.immovables.len() == n
    }

    /// Create one entity carrying exactly the supplied components: every
    /// store grows by one slot, and no existing entity is touched.
    pub fn create_entity(
        &mut self,
        position: Option<Position>,
        renderable: Option<Renderable>,
        player: bool,
        wall: bool,
        box_comp: Option<Box>,
        box_spot: Option<BoxSpot>,
        movable: bool,
        immovable: bool,
    )
        requires
            old(self).wf(),
        ensures
            final(self).wf(),
            final(self).entity_count() == old(self).entity_count() + 1,
            final(self).positions@ == old(self).positions@.push(position),
            final(self).rens() == old(self).rens().push(ren_view(renderable)),
            final(self).players@ == old(self).players@.push(player),
            final(self).walls@ == old(self).walls@.push(wall),
            final(self).boxes@ == old(self).boxes@.push(box_comp),
            final(self).box_spots@ == old(self).box_spots@.push(box_spot),
            final(self).movables@ == old(self).movables@.push(movable),
            final(self).immovables@ == old(self).immovables@.push(immovable),
            final(self).registry == old(self).registry,
            final(self).input_queue == old(self).input_queue,
            final(self).gameplay == old(self).gameplay,
            final(self).time == old(self).time,
    {
        let ghost old_rens = self.rens();
        let ghost pushed = ren_view(renderable);
        self.positions.push(position);
        self.renderables.push(renderable);
        self.players.push(player);
        self.walls.push(wall);
        self.boxes.push(box_comp);
        self.box_spots.push(box_spot);
        self.movables.push(movable);
        self.immovables.push(immovable);
        proof {
            assert(self.rens() =~= old_rens.push(pushed));
        }
    }
}

impl Default for World {
    /// A fresh world, as `World::new` builds it.
    fn default() -> (w: World)
        ensures
            w.wf(),
            w.entity_count() == 0,
            w.registry == Registry::none_spec(),
    {
        World::new()
    }
}

} // verus!
