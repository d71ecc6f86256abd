use sokoban::components::{register_components, BoxColour, Position};
use sokoban::map::{initialize_level, load_map, parse_placements, MapError, TileKind};
use sokoban::world::World;

fn fresh_world() -> World {
    let mut w = World::new();
    register_components(&mut w);
    w
}

fn entity_at(w: &World, x: u8, y: u8, z: u8) -> Vec<usize> {
    (0..w.positions.len())
        .filter(|&i| w.positions[i] == Some(Position { x, y, z }))
        .collect()
}

#[test]
fn sample_map_three_by_three() {
    let mut w = fresh_world();
    let r = load_map(&mut w, b"N N W\nW P .\nW . BR");
    assert!(r.is_ok());

    // one floor tile beneath every non-N cell: 7 of 9 cells
    let floors: Vec<usize> = (0..w.positions.len())
        .filter(|&i| w.positions[i].unwrap().z == 5)
        .collect();
    assert_eq!(floors.len(), 7);
    // the implied floor beneath the box
    assert_eq!(entity_at(&w, 2, 2, 5).len(), 1);
    // a floor at grid cell (2, 1)
    assert_eq!(entity_at(&w, 2, 1, 5).len(), 1);

    // the player stands at (1, 1) on the object layer
    let players: Vec<usize> = (0..w.players.len()).filter(|&i| w.players[i]).collect();
    assert_eq!(players.len(), 1);
    assert_eq!(w.positions[players[0]], Some(Position { x: 1, y: 1, z: 10 }));

    // one red box, at the BR cell
    let boxes: Vec<usize> = (0..w.boxes.len()).filter(|&i| w.boxes[i].is_some()).collect();
    assert_eq!(boxes.len(), 1);
    assert_eq!(w.boxes[boxes[0]].unwrap().colour, BoxColour::Red);
    assert_eq!(w.positions[boxes[0]], Some(Position { x: 2, y: 2, z: 10 }));

    // three walls on the object layer, one per W cell
    let walls: Vec<usize> = (0..w.immovables.len()).filter(|&i| w.immovables[i]).collect();
    assert_eq!(walls.len(), 3);
    assert_eq!(entity_at(&w, 2, 0, 10).len(), 1);
    assert_eq!(entity_at(&w, 0, 1, 10).len(), 1);
    assert_eq!(entity_at(&w, 0, 2, 10).len(), 1);

    // 7 floors + 3 walls + player + box
    assert_eq!(w.positions.len(), 12);
}

#[test]
fn unknown_token_is_fatal_and_leaves_world_untouched() {
    let mut w = fresh_world();
    let r = load_map(&mut w, b"W X W");
    assert_eq!(r, Err(MapError::UnknownToken));
    assert_eq!(w.positions.len(), 0);
}

#[test]
fn parse_splits_rows_and_tokens() {
    let ps = parse_placements(b"  N W \n\n . ").unwrap();
    let got: Vec<(u8, u8, TileKind)> = ps.iter().map(|p| (p.x, p.y, p.tile)).collect();
    assert_eq!(
        got,
        vec![
            (0, 0, TileKind::Empty),
            (1, 0, TileKind::Wall),
            (0, 2, TileKind::Floor),
        ]
    );
}

#[test]
fn parse_recognises_every_token() {
    let ps = parse_placements(b"N W . P BR BB RS BS").unwrap();
    let tiles: Vec<TileKind> = ps.iter().map(|p| p.tile).collect();
    assert_eq!(
        tiles,
        vec![
            TileKind::Empty,
            TileKind::Wall,
            TileKind::Floor,
            TileKind::Player,
            TileKind::BoxTile(BoxColour::Red),
            TileKind::BoxTile(BoxColour::Blue),
            TileKind::BoxSpotTile(BoxColour::Red),
            TileKind::BoxSpotTile(BoxColour::Blue),
        ]
    );
}

#[test]
fn empty_map_loads_nothing() {
    let mut w = fresh_world();
    assert!(load_map(&mut w, b"").is_ok());
    assert_eq!(w.positions.len(), 0);
}

#[test]
fn standard_level_contents() {
    let mut w = fresh_world();
    initialize_level(&mut w);
    // 70 non-empty cells, each with a floor; 30 walls; 1 player; 2 boxes; 2 spots
    assert_eq!(w.positions.len(), 105);
    let floors = w.positions.iter().filter(|p| p.unwrap().z == 5).count();
    assert_eq!(floors, 70);
    let walls = w.immovables.iter().filter(|&&m| m).count();
    assert_eq!(walls, 30);
    assert_eq!(w.players.iter().filter(|&&m| m).count(), 1);
    assert_eq!(w.boxes.iter().filter(|b| b.is_some()).count(), 2);
    assert_eq!(w.box_spots.iter().filter(|b| b.is_some()).count(), 2);
    // one red and one blue of each
    let colours: Vec<BoxColour> =
        w.boxes.iter().filter_map(|b| b.map(|b| b.colour)).collect();
    assert!(colours.contains(&BoxColour::Red) && colours.contains(&BoxColour::Blue));
    let spot_colours: Vec<BoxColour> =
        w.box_spots.iter().filter_map(|b| b.map(|b| b.colour)).collect();
    assert!(spot_colours.contains(&BoxColour::Red) && spot_colours.contains(&BoxColour::Blue));
}

#[test]
fn coordinates_beyond_the_grid_are_fatal() {
    // 257 tokens in one row: the 257th sits at x = 256, beyond u8
    let mut text: Vec<u8> = Vec::new();
    for _ in 0..257 {
        text.extend_from_slice(b"W ");
    }
    let mut w = fresh_world();
    assert_eq!(load_map(&mut w, &text), Err(MapError::TooLarge));
    assert_eq!(w.positions.len(), 0);
}
