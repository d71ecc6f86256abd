use sokoban::components::register_components;
use sokoban::resources::{register_resources, Gameplay, GameplayState, InputQueue, Time};
use sokoban::world::World;

#[test]
fn input_queue_drains_in_append_order_and_only_once() {
    let mut q = InputQueue::new();
    q.push_key(17);
    q.push_key(3);
    q.push_key(99);
    let first = q.drain();
    assert_eq!(first, vec![17, 3, 99]);
    // a second drain in the same frame, with no new keys, delivers nothing
    let second = q.drain();
    assert_eq!(second, Vec::<u32>::new());
    assert!(q.keys_pressed.is_empty());
}

#[test]
fn input_queue_defaults_empty() {
    let q = InputQueue::default();
    assert!(q.keys_pressed.is_empty());
}

#[test]
fn gameplay_starts_playing_with_zero_moves() {
    let g = Gameplay::default();
    assert_eq!(g.state, GameplayState::Playing);
    assert_eq!(g.moves_count, 0);
    assert_eq!(GameplayState::default(), GameplayState::Playing);
}

#[test]
fn won_is_terminal_and_moves_never_decrease() {
    let mut g = Gameplay::new();
    g.record_move();
    assert_eq!(g.moves_count, 1);
    assert_eq!(g.state, GameplayState::Playing);
    g.mark_won();
    assert_eq!(g.state, GameplayState::Won);
    // no operation in this core's scope leaves the Won phase
    g.record_move();
    assert_eq!(g.state, GameplayState::Won);
    assert_eq!(g.moves_count, 2);
    g.mark_won();
    assert_eq!(g.state, GameplayState::Won);
    assert_eq!(g.moves_count, 2);
}

#[test]
fn state_names() {
    assert_eq!(GameplayState::Playing.name(), "Playing");
    assert_eq!(GameplayState::Won.name(), "Won");
}

#[test]
fn register_resources_resets_resources_only() {
    let mut w = World::new();
    register_components(&mut w);
    sokoban::entities::create_wall(
        &mut w,
        sokoban::components::Position { x: 0, y: 0, z: 0 },
    );
    w.input_queue.push_key(1);
    w.gameplay.record_move();
    w.gameplay.mark_won();
    w.time = Time { delta: 16 };
    register_resources(&mut w);
    assert!(w.input_queue.keys_pressed.is_empty());
    assert_eq!(w.gameplay.state, GameplayState::Playing);
    assert_eq!(w.gameplay.moves_count, 0);
    assert_eq!(w.time.delta, 0);
    // entities are untouched
    assert_eq!(w.positions.len(), 1);
}
