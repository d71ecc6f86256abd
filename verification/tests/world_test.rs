use sokoban::components::{BoxColour, Position};
use sokoban::entities::{
    create_box, create_box_spot, create_floor, create_player, create_wall,
};
use sokoban::components::register_components;
use sokoban::world::World;

fn fresh_world() -> World {
    let mut w = World::new();
    register_components(&mut w);
    w
}

#[test]
fn factories_fix_layers_and_assets() {
    let mut w = fresh_world();
    let base = Position { x: 3, y: 4, z: 200 };
    create_wall(&mut w, base);
    create_floor(&mut w, base);
    create_box_spot(&mut w, base, BoxColour::Red);
    create_player(&mut w, base);
    create_box(&mut w, base, BoxColour::Blue);

    assert_eq!(w.positions.len(), 5);
    let zs: Vec<u8> = w.positions.iter().map(|p| p.unwrap().z).collect();
    // caller-supplied layer is overridden by the archetype constants
    assert_eq!(zs, vec![10, 5, 9, 10, 10]);
    for p in w.positions.iter() {
        let p = p.unwrap();
        assert_eq!((p.x, p.y), (3, 4));
    }
    let paths: Vec<String> = w.renderables.iter().map(|r| r.as_ref().unwrap().path.clone()).collect();
    assert_eq!(
        paths,
        vec![
            "/images/wall.png".to_string(),
            "/images/floor.png".to_string(),
            "/images/box_spot_red.png".to_string(),
            "/images/player.png".to_string(),
            "/images/box_blue.png".to_string(),
        ]
    );
}

#[test]
fn factories_fix_markers() {
    let mut w = fresh_world();
    let base = Position { x: 0, y: 0, z: 0 };
    create_wall(&mut w, base); // entity 0: immovable, nothing else
    create_floor(&mut w, base); // entity 1: no markers
    create_player(&mut w, base); // entity 2: player + movable
    create_box(&mut w, base, BoxColour::Red); // entity 3: box + movable
    create_box_spot(&mut w, base, BoxColour::Red); // entity 4: box spot only

    assert_eq!(w.immovables, vec![true, false, false, false, false]);
    assert_eq!(w.movables, vec![false, false, true, true, false]);
    assert_eq!(w.players, vec![false, false, true, false, false]);
    assert!(w.boxes[3].is_some() && w.boxes.iter().filter(|b| b.is_some()).count() == 1);
    assert!(w.box_spots[4].is_some() && w.box_spots.iter().filter(|b| b.is_some()).count() == 1);
    assert_eq!(w.boxes[3].unwrap().colour, BoxColour::Red);
}

#[test]
fn colour_round_trips_into_distinct_paired_assets() {
    let mut w = fresh_world();
    let base = Position { x: 1, y: 1, z: 0 };
    create_box(&mut w, base, BoxColour::Red);
    create_box_spot(&mut w, base, BoxColour::Red);
    create_box(&mut w, base, BoxColour::Blue);
    create_box_spot(&mut w, base, BoxColour::Blue);
    let path = |i: usize| w.renderables[i].as_ref().unwrap().path.clone();
    // paired: the box and its spot both name the same colour
    assert!(path(0).contains("red") && path(1).contains("red"));
    assert!(path(2).contains("blue") && path(3).contains("blue"));
    // distinct: box vs spot of one colour, and across colours
    assert_ne!(path(0), path(1));
    assert_ne!(path(2), path(3));
    assert_ne!(path(0), path(2));
    assert_ne!(path(1), path(3));
}

#[test]
fn colour_names() {
    assert_eq!(BoxColour::Red.name(), "red");
    assert_eq!(BoxColour::Blue.name(), "blue");
}

#[test]
fn world_new_is_empty_and_unregistered() {
    let w = World::new();
    assert!(w.wf_check());
    assert_eq!(w.positions.len(), 0);
    assert!(!w.registry.position);
    let mut w = w;
    register_components(&mut w);
    assert!(w.registry.position && w.registry.renderable && w.registry.immovable);
}
