use sokoban::components::{register_components, BoxColour, Position, Renderable};
use sokoban::entities::{create_box, create_box_spot, create_floor, create_player, create_wall};
use sokoban::rendering::{u32_string, Batch, Frame, RenderingSystem, TILE_WIDTH};
use sokoban::world::World;

fn fresh_world() -> World {
    let mut w = World::new();
    register_components(&mut w);
    w
}

fn frame_of(w: &World) -> Frame {
    let rs = RenderingSystem {};
    rs.run(w)
}

fn batch_summary(b: &Batch) -> (u8, String, Vec<(u32, u32)>) {
    (b.layer, b.asset.clone(), b.dests.iter().map(|d| (d.x, d.y)).collect())
}

#[test]
fn layers_emit_in_ascending_order() {
    let mut w = fresh_world();
    let at = |x: u8, y: u8| Position { x, y, z: 0 };
    create_player(&mut w, at(0, 0)); // layer 10
    create_floor(&mut w, at(0, 0)); // layer 5
    create_box_spot(&mut w, at(1, 0), BoxColour::Red); // layer 9
    create_wall(&mut w, at(2, 0)); // layer 10
    create_floor(&mut w, at(1, 0)); // layer 5

    let f = frame_of(&w);
    let layers: Vec<u8> = f.batches.iter().map(|b| b.layer).collect();
    let mut sorted = layers.clone();
    sorted.sort();
    assert_eq!(layers, sorted);
    assert_eq!(layers, vec![5, 9, 10, 10]);
}

#[test]
fn same_key_entities_share_one_batch_with_one_dest_each() {
    let mut w = fresh_world();
    create_wall(&mut w, Position { x: 0, y: 0, z: 0 });
    create_wall(&mut w, Position { x: 1, y: 0, z: 0 });
    create_wall(&mut w, Position { x: 0, y: 2, z: 0 });
    create_floor(&mut w, Position { x: 1, y: 1, z: 0 });

    let f = frame_of(&w);
    assert_eq!(f.batches.len(), 2);
    let (l0, a0, d0) = batch_summary(&f.batches[0]);
    let (l1, a1, d1) = batch_summary(&f.batches[1]);
    assert_eq!((l0, a0.as_str()), (5, "/images/floor.png"));
    assert_eq!(d0, vec![(TILE_WIDTH, TILE_WIDTH)]);
    assert_eq!((l1, a1.as_str()), (10, "/images/wall.png"));
    // one destination per wall, in join (entity index) order, scaled by the tile width
    assert_eq!(d1, vec![(0, 0), (TILE_WIDTH, 0), (0, 2 * TILE_WIDTH)]);
    // no key occurs twice
    for i in 0..f.batches.len() {
        for j in (i + 1)..f.batches.len() {
            assert!(
                (f.batches[i].layer, f.batches[i].asset.clone())
                    != (f.batches[j].layer, f.batches[j].asset.clone())
            );
        }
    }
}

#[test]
fn same_layer_batches_keep_first_seen_order() {
    let mut w = fresh_world();
    create_player(&mut w, Position { x: 0, y: 0, z: 0 });
    create_box(&mut w, Position { x: 1, y: 0, z: 0 }, BoxColour::Red);
    create_player(&mut w, Position { x: 2, y: 0, z: 0 });

    let f = frame_of(&w);
    assert_eq!(f.batches.len(), 2);
    assert_eq!(f.batches[0].asset, "/images/player.png");
    assert_eq!(f.batches[1].asset, "/images/box_red.png");
    assert_eq!(f.batches[0].dests.len(), 2);
}

#[test]
fn rendering_twice_on_unchanged_world_is_identical() {
    let mut w = fresh_world();
    create_wall(&mut w, Position { x: 0, y: 0, z: 0 });
    create_player(&mut w, Position { x: 1, y: 1, z: 0 });
    create_box(&mut w, Position { x: 2, y: 2, z: 0 }, BoxColour::Blue);
    create_floor(&mut w, Position { x: 3, y: 3, z: 0 });

    let f1 = frame_of(&w);
    let f2 = frame_of(&w);
    assert_eq!(f1.batches.len(), f2.batches.len());
    for (a, b) in f1.batches.iter().zip(f2.batches.iter()) {
        assert_eq!(batch_summary(a), batch_summary(b));
    }
    assert_eq!(f1.state_text, f2.state_text);
    assert_eq!(f1.moves_text, f2.moves_text);
}

#[test]
fn empty_world_renders_empty_frame_with_overlays() {
    let w = fresh_world();
    let f = frame_of(&w);
    assert_eq!(f.batches.len(), 0);
    assert_eq!(f.state_text, "Playing");
    assert_eq!(f.moves_text, "0");
}

#[test]
fn overlays_follow_gameplay_state() {
    let mut w = fresh_world();
    w.gameplay.record_move();
    w.gameplay.record_move();
    w.gameplay.mark_won();
    let f = frame_of(&w);
    assert_eq!(f.state_text, "Won");
    assert_eq!(f.moves_text, "2");
}

#[test]
fn get_image_hands_back_the_asset_path() {
    let rs = RenderingSystem {};
    let r = Renderable { path: "/images/wall.png".to_string() };
    assert_eq!(rs.get_image(&r, 0), "/images/wall.png");
    assert_eq!(rs.get_image(&r, 999), "/images/wall.png");
}

#[test]
fn decimal_text() {
    assert_eq!(u32_string(0), "0");
    assert_eq!(u32_string(7), "7");
    assert_eq!(u32_string(10), "10");
    assert_eq!(u32_string(42), "42");
    assert_eq!(u32_string(1000), "1000");
    assert_eq!(u32_string(u32::MAX), "4294967295");
}
