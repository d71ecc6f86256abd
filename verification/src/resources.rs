//! Shared singleton resources: the input queue, the gameplay phase and move
//! counter, and the per-frame time delta.

use vstd::prelude::*;

verus! {

/// Ordered sequence of captured key codes. The input pass appends; the
/// gameplay pass drains. Key codes are carried as plain integers.
#[derive(Clone, Debug)]
pub struct InputQueue {
    pub keys_pressed: Vec<u32>,
}

/// What a drain hands to the gameplay pass: every queued key, in append order.
pub open spec fn drain_result(keys: Seq<u32>) -> Seq<u32> {
    keys
}

/// What a drain leaves behind: nothing.
pub open spec fn drain_rest(keys: Seq<u32>) -> Seq<u32> {
    Seq::empty()
}

impl InputQueue {
    /// An empty queue.
    pub fn new() -> (q: InputQueue)
        ensures
            q.keys_pressed@ == Seq::<u32>::empty(),
    {
        InputQueue { keys_pressed: Vec::new() }
    }

    /// Append one captured key code; earlier entries are kept in order.
    pub fn push_key(&mut self, key: u32)
        ensures
            final(self).keys_pressed@ == old(self).keys_pressed@.push(key),
    {
        self.keys_pressed.push(key);
    }

    /// Hand out every queued key in append order and leave the queue empty,
    /// so no key is ever delivered twice.
    pub fn drain(&mut self) -> (keys: Vec<u32>)
        ensures
            keys@ == drain_result(old(self).keys_pressed@),
            final(self).keys_pressed@ == drain_rest(old(self).keys_pressed@),
    {
        let mut out: Vec<u32> = Vec::new();
        core::mem::swap(&mut out, &mut self.keys_pressed);
        out
    }
}

impl Default for InputQueue {
    /// An empty queue.
    fn default() -> (q: InputQueue)
        ensures
            q.keys_pressed@ == Seq::<u32>::empty(),
    {
        InputQueue::new()
    }
}

/// A second drain in the same frame, with no new key events in between,
/// yields an empty sequence: keys are delivered at most once.
pub proof fn lemma_no_double_delivery(keys: Seq<u32>)
    ensures
        drain_result(drain_rest(keys)) == Seq::<u32>::empty(),
        drain_rest(drain_rest(keys)) == Seq::<u32>::empty(),
{
}

/// Current phase of the game.
#[derive(Clone, Copy, PartialEq, Eq, Structural, Debug)]
pub enum GameplayState {
    Playing,
    Won,
}

/// Display name of a phase, as drawn by the rendering pass's overlay.
pub open spec fn state_name_spec(s: GameplayState) -> Seq<char> {
    match s {
        GameplayState::Playing => "Playing"@,
        GameplayState::Won => "Won"@,
    }
}

impl GameplayState {
    /// Display name of the phase.
    pub fn name(&self) -> (r: &'static str)
        ensures
            r@ == state_name_spec(*self),
    {
        match self {
            GameplayState::Playing => "Playing",
            GameplayState::Won => "Won",
        }
    }
}

impl Default for GameplayState {
    /// A game starts in the `Playing` phase.
    fn default() -> (s: GameplayState)
        ensures
            s == GameplayState::Playing,
    {
        GameplayState::Playing
    }
}

/// Gameplay phase plus a monotonically non-decreasing move counter.
#[derive(Clone, Copy, PartialEq, Eq, Structural, Debug)]
pub struct Gameplay {
    pub state: GameplayState,
    pub moves_count: u32,
}

/// The operations this core offers on the gameplay resource.
#[derive(Clone, Copy, PartialEq, Eq, Structural, Debug)]
pub enum GameplayOp {
    RecordMove,
    MarkWon,
}

/// Transition relation of the gameplay resource: one step per operation.
pub open spec fn gameplay_step(g: Gameplay, op: GameplayOp) -> Gameplay {
    match op {
        GameplayOp::RecordMove => Gameplay {
            state: g.state,
            moves_count: if g.moves_count < 0xffff_ffff {
                (g.moves_count + 1) as u32
            } else {
                g.moves_count
            },
        },
        GameplayOp::MarkWon => Gameplay { state: GameplayState::Won, moves_count: g.moves_count },
    }
}

impl Gameplay {
    /// A fresh game: `Playing`, zero moves.
    pub fn new() -> (g: Gameplay)
        ensures
            g.state == GameplayState::Playing,
            g.moves_count == 0,
    {
        Gameplay { state: GameplayState::Playing, moves_count: 0 }
    }

    /// Count one completed move. The counter never decreases and the phase
    /// is left untouched.
    pub fn record_move(&mut self)
        ensures
            *final(self) == gameplay_step(*old(self), GameplayOp::RecordMove),
            final(self).moves_count >= old(self).moves_count,
            final(self).state == old(self).state,
    {
        self.moves_count = self.moves_count.saturating_add(1);
    }

    /// Enter the terminal `Won` phase. The counter is left untouched.
    pub fn mark_won(&mut self)
        ensures
            *final(self) == gameplay_step(*old(self), GameplayOp::MarkWon),
            final(self).state == GameplayState::Won,
            final(self).moves_count == old(self).moves_count,
    {
        self.state = GameplayState::Won;
    }
}

impl Default for Gameplay {
    /// A fresh game: `Playing`, zero moves.
    fn default() -> (g: Gameplay)
        ensures
            g.state == GameplayState::Playing,
            g.moves_count == 0,
    {
        Gameplay::new()
    }
}

/// The `Won` phase is terminal: no operation of this core leaves it, and the
/// move counter never decreases under any operation.
pub proof fn lemma_won_is_terminal(g: Gameplay, op: GameplayOp)
    ensures
        g.state == GameplayState::Won ==> gameplay_step(g, op).state == GameplayState::Won,
        gameplay_step(g, op).moves_count >= g.moves_count,
{
}

/// Elapsed time since the previous frame, in milliseconds. Read-only to the
/// rendering pass; reserved for selecting frames of animated assets.
#[derive(Clone, Copy, PartialEq, Eq, Structural, Debug)]
pub struct Time {
    pub delta: u64,
}

impl Default for Time {
    /// No time has passed yet.
    fn default() -> (t: Time)
        ensures
            t.delta == 0,
    {
        Time { delta: 0 }
    }
}

} // verus!

use crate::world::World;

verus! {

/// Reset the shared resources to their starting values: an empty input
/// queue, a fresh gameplay record, and a zero time delta. Stores and the
/// registry are untouched.
pub fn register_resources(world: &mut World)
    ensures
        final(world).input_queue.keys_pressed@ == Seq::<u32>::empty(),
        final(world).gameplay.state == GameplayState::Playing,
        final(world).gameplay.moves_count == 0,
        final(world).time.delta == 0,
        final(world).registry == old(world).registry,
        final(world).positions == old(world).positions,
        final(world).renderables == old(world).renderables,
        final(world).players == old(world).players,
        final(world).walls == old(world).walls,
        final(world).boxes == old(world).boxes,
        final(world).box_spots == old(world).box_spots,
        final(world).movables == old(world).movables,
        final(world).immovables == old(world).immovables,
{
    world.input_queue = InputQueue::new();
    world.gameplay = Gameplay::new();
    world.time = Time { delta: 0 };
}

} // verus!
