//! Level loading: parse a plain-text grid of whitespace-delimited tokens
//! into placements, then build the entities.
//!
//! Rows are separated by newlines and map to increasing `y`; tokens within a
//! row are separated by blanks and map to increasing `x`. Tokens: `N` empty,
//! `W` wall, `.` floor, `P` player, `BR`/`BB` red/blue box, `RS`/`BS`
//! red/blue box spot. Every token but `N` lays a floor tile beneath its
//! entity. A malformed token is a fatal load-time error.

use vstd::prelude::*;

use crate::components::{Box, BoxColour, BoxSpot, Position};
use crate::entities::{
    box_asset_spec, box_spot_asset_spec, create_box, create_box_spot, create_floor, create_player,
    create_wall, floor_asset_spec, player_asset_spec, wall_asset_spec, FLOOR_LAYER, GOAL_LAYER,
    OBJECT_LAYER,
};
use crate::world::World;

verus! {

/// What one map token asks for.
#[derive(Clone, Copy, PartialEq, Eq, Structural, Debug)]
pub enum TileKind {
    Empty,
    Wall,
    Floor,
    Player,
    BoxTile(BoxColour),
    BoxSpotTile(BoxColour),
}

/// Why a map failed to load.
#[derive(Clone, Copy, PartialEq, Eq, Structural, Debug)]
pub enum MapError {
    /// A token is none of the known ones.
    UnknownToken,
    /// A token sits beyond the largest representable grid coordinate.
    TooLarge,
}

/// One parsed token: a tile kind at a grid cell.
#[derive(Clone, Copy, PartialEq, Eq, Structural, Debug)]
pub struct Placement {
    pub x: u8,
    pub y: u8,
    pub tile: TileKind,
}

/// The tile a token's bytes stand for, if any.
pub open spec fn tile_of_word(w: Seq<u8>) -> Option<TileKind> {
    if w == seq![0x4eu8] {
        Option::Some(TileKind::Empty)
    } else if w == seq![0x57u8] {
        Option::Some(TileKind::Wall)
    } else if w == seq![0x2eu8] {
        Option::Some(TileKind::Floor)
    } else if w == seq![0x50u8] {
        Option::Some(TileKind::Player)
    } else if w == seq![0x42u8, 0x52u8] {
        Option::Some(TileKind::BoxTile(BoxColour::Red))
    } else if w == seq![0x42u8, 0x42u8] {
        Option::Some(TileKind::BoxTile(BoxColour::Blue))
    } else if w == seq![0x52u8, 0x53u8] {
        Option::Some(TileKind::BoxSpotTile(BoxColour::Red))
    } else if w == seq![0x42u8, 0x53u8] {
        Option::Some(TileKind::BoxSpotTile(BoxColour::Blue))
    } else {
        Option::None
    }
}

/// The tile a token's bytes stand for, if any.
pub fn tile_of_token(word: &Vec<u8>) -> (t: Option<TileKind>)
    ensures
        t == tile_of_word(word@),
{
    if word.len() == 1 {
        let b = word[0];
        if b == 0x4e {
            proof {
                assert(word@ =~= seq![0x4eu8]);
            }
            Some(TileKind::Empty)
        } else if b == 0x57 {
            proof {
                assert(word@ =~= seq![0x57u8]);
            }
            Some(TileKind::Wall)
        } else if b == 0x2e {
            proof {
                assert(word@ =~= seq![0x2eu8]);
            }
            Some(TileKind::Floor)
        } else if b == 0x50 {
            proof {
                assert(word@ =~= seq![0x50u8]);
            }
            Some(TileKind::Player)
        } else {
            None
        }
    } else if word.len() == 2 {
        let b0 = word[0];
        let b1 = word[1];
        if b0 == 0x42 && b1 == 0x52 {
            proof {
                assert(word@ =~= seq![0x42u8, 0x52u8]);
            }
            Some(TileKind::BoxTile(BoxColour::Red))
        } else if b0 == 0x42 && b1 == 0x42 {
            proof {
                assert(word@ =~= seq![0x42u8, 0x42u8]);
            }
            Some(TileKind::BoxTile(BoxColour::Blue))
        } else if b0 == 0x52 && b1 == 0x53 {
            proof {
                assert(word@ =~= seq![0x52u8, 0x53u8]);
            }
            Some(TileKind::BoxSpotTile(BoxColour::Red))
        } else if b0 == 0x42 && b1 == 0x53 {
            proof {
                assert(word@ =~= seq![0x42u8, 0x53u8]);
            }
            Some(TileKind::BoxSpotTile(BoxColour::Blue))
        } else {
            None
        }
    } else {
        None
    }
}

/// Parser state: the cell the next token lands on, the bytes of the token
/// being read, the placements finished so far, and the first error met.
pub ghost struct ParseState {
    pub x: int,
    pub y: int,
    pub word: Seq<u8>,
    pub placements: Seq<Placement>,
    pub err: Option<MapError>,
}

/// The state a parse starts from.
pub open spec fn init_state() -> ParseState {
    ParseState { x: 0, y: 0, word: Seq::empty(), placements: Seq::empty(), err: Option::None }
}

/// Finish the token being read, if any: place its tile at the current cell,
/// or record the first error, and move one cell right.
pub open spec fn flush_word(st: ParseState) -> ParseState {
    if st.word.len() == 0 {
        st
    } else {
        match tile_of_word(st.word) {
            Option::None => ParseState {
                x: st.x + 1,
                y: st.y,
                word: Seq::empty(),
                placements: st.placements,
                err: if st.err is None {
                    Option::Some(MapError::UnknownToken)
                } else {
                    st.err
                },
            },
            Option::Some(tile) => {
                if st.x > 255 || st.y > 255 {
                    ParseState {
                        x: st.x + 1,
                        y: st.y,
                        word: Seq::empty(),
                        placements: st.placements,
                        err: if st.err is None {
                            Option::Some(MapError::TooLarge)
                        } else {
                            st.err
                        },
                    }
                } else {
                    ParseState {
                        x: st.x + 1,
                        y: st.y,
                        word: Seq::empty(),
                        placements: st.placements.push(
                            Placement { x: st.x as u8, y: st.y as u8, tile },
                        ),
                        err: st.err,
                    }
                }
            },
        }
    }
}

/// Consume one byte: a newline finishes the token and the row, a blank
/// finishes the token, anything else extends the token.
pub open spec fn parse_step(st: ParseState, b: u8) -> ParseState {
    if b == 0x0a {
        let f = flush_word(st);
        ParseState { x: 0, y: f.y + 1, word: f.word, placements: f.placements, err: f.err }
    } else if b == 0x20 || b == 0x09 || b == 0x0d {
        flush_word(st)
    } else {
        ParseState {
            x: st.x,
            y: st.y,
            word: st.word.push(b),
            placements: st.placements,
            err: st.err,
        }
    }
}

/// Fold the whole input through `parse_step`.
pub open spec fn parse_fold(bytes: Seq<u8>) -> ParseState
    decreases bytes.len(),
{
    if bytes.len() == 0 {
        init_state()
    } else {
        parse_step(parse_fold(bytes.drop_last()), bytes.last())
    }
}

/// The parse of a whole map text: fold every byte, then finish the last
/// token. Its `placements` and `err` say everything about the input.
pub open spec fn parse_map(bytes: Seq<u8>) -> ParseState {
    flush_word(parse_fold(bytes))
}

/// Running parser.
struct Parser {
    x: usize,
    y: usize,
    word: Vec<u8>,
    placements: Vec<Placement>,
    err: Option<MapError>,
}

impl View for Parser {
    type V = ParseState;

    closed spec fn view(&self) -> ParseState {
        ParseState {
            x: self.x as int,
            y: self.y as int,
            word: self.word@,
            placements: self.placements@,
            err: self.err,
        }
    }
}

impl Parser {
    /// Finish the token being read, as `flush_word` says.
    fn flush(&mut self)
        requires
            old(self).word@.len() > 0 ==> old(self).x < usize::MAX,
        ensures
            final(self)@ == flush_word(old(self)@),
    {
        if self.word.is_empty() {
            return ;
        }
        let tile = tile_of_token(&self.word);
        self.word.clear();
        match tile {
            Option::None => {
                if self.err.is_none() {
                    self.err = Some(MapError::UnknownToken);
                }
            },
            Option::Some(tile) => {
                if self.x > 255 || self.y > 255 {
                    if self.err.is_none() {
                        self.err = Some(MapError::TooLarge);
                    }
                } else {
                    self.placements.push(
                        Placement { x: self.x as u8, y: self.y as u8, tile },
                    );
                }
            },
        }
        self.x = self.x + 1;
    }
}

/// Parse a map text into placements, or report the first error: an unknown
/// token, or a token beyond the largest representable coordinate.
pub fn parse_placements(map: &[u8]) -> (r: Result<Vec<Placement>, MapError>)
    ensures
        (match r {
            Result::Ok(ps) => parse_map(map@).err is None && ps@ == parse_map(map@).placements,
            Result::Err(e) => parse_map(map@).err == Option::Some(e),
        }),
{
    let ghost bytes = map@;
    let mut p = Parser { x: 0, y: 0, word: Vec::new(), placements: Vec::new(), err: None };
    let n = map.len();
    let mut i: usize = 0;
    proof {
        assert(bytes.take(0) =~= Seq::<u8>::empty());
        assert(p@ == parse_fold(bytes.take(0)));
    }
    while i < n
        invariant
            n == bytes.len(),
            bytes == map@,
            0 <= i <= n,
            p@ == parse_fold(bytes.take(i as int)),
            p@.x + p@.word.len() <= i,
            p@.y <= i,
        decreases n - i,
    {
        let b = map[i];
        proof {
            assert(b == bytes[i as int]);
        }
        if b == 0x0a {
            p.flush();
            p.x = 0;
            p.y = p.y + 1;
        } else if b == 0x20 || b == 0x09 || b == 0x0d {
            p.flush();
        } else {
            p.word.push(b);
        }
        proof {
            let t1 = bytes.take(i + 1);
            assert(t1.drop_last() =~= bytes.take(i as int));
            assert(t1.last() == bytes[i as int]);
            assert(p@ == parse_step(parse_fold(bytes.take(i as int)), b));
        }
        i = i + 1;
    }
    proof {
        assert(bytes.take(n as int) =~= bytes);
    }
    p.flush();
    match p.err {
        Option::None => Ok(p.placements),
        Option::Some(e) => Err(e),
    }
}

/// The component stores of a world, bundled for speaking about growth.
#[verifier::ext_equal]
pub ghost struct StoresView {
    pub positions: Seq<Option<Position>>,
    pub rens: Seq<Option<Seq<char>>>,
    pub players: Seq<bool>,
    pub walls: Seq<bool>,
    pub boxes: Seq<Option<Box>>,
    pub box_spots: Seq<Option<BoxSpot>>,
    pub movables: Seq<bool>,
    pub immovables: Seq<bool>,
}

/// The stores of a world.
pub open spec fn stores_of(w: World) -> StoresView {
    StoresView {
        positions: w.positions@,
        rens: w.rens(),
        players: w.players@,
        walls: w.walls@,
        boxes: w.boxes@,
        box_spots: w.box_spots@,
        movables: w.movables@,
        immovables: w.immovables@,
    }
}

/// One floor entity appended, as `create_floor` builds it.
pub open spec fn place_floor(s: StoresView, x: u8, y: u8) -> StoresView {
    StoresView {
        positions: s.positions.push(Option::Some(Position { x, y, z: FLOOR_LAYER })),
        rens: s.rens.push(Option::Some(floor_asset_spec())),
        players: s.players.push(false),
        walls: s.walls.push(false),
        boxes: s.boxes.push(Option::None),
        box_spots: s.box_spots.push(Option::None),
        movables: s.movables.push(false),
        immovables: s.immovables.push(false),
    }
}

/// One wall entity appended, as `create_wall` builds it.
pub open spec fn place_wall(s: StoresView, x: u8, y: u8) -> StoresView {
    StoresView {
        positions: s.positions.push(Option::Some(Position { x, y, z: OBJECT_LAYER })),
        rens: s.rens.push(Option::Some(wall_asset_spec())),
        players: s.players.push(false),
        walls: s.walls.push(false),
        boxes: s.boxes.push(Option::None),
        box_spots: s.box_spots.push(Option::None),
        movables: s.movables.push(false),
        immovables: s.immovables.push(true),
    }
}

/// One player entity appended, as `create_player` builds it.
pub open spec fn place_player(s: StoresView, x: u8, y: u8) -> StoresView {
    StoresView {
        positions: s.positions.push(Option::Some(Position { x, y, z: OBJECT_LAYER })),
        rens: s.rens.push(Option::Some(player_asset_spec())),
        players: s.players.push(true),
        walls: s.walls.push(false),
        boxes: s.boxes.push(Option::None),
        box_spots: s.box_spots.push(Option::None),
        movables: s.movables.push(true),
        immovables: s.immovables.push(false),
    }
}

/// One box entity appended, as `create_box` builds it.
pub open spec fn place_box(s: StoresView, x: u8, y: u8, colour: BoxColour) -> StoresView {
    StoresView {
        positions: s.positions.push(Option::Some(Position { x, y, z: OBJECT_LAYER })),
        rens: s.rens.push(Option::Some(box_asset_spec(colour))),
        players: s.players.push(false),
        walls: s.walls.push(false),
        boxes: s.boxes.push(Option::Some(Box { colour })),
        box_spots: s.box_spots.push(Option::None),
        movables: s.movables.push(true),
        immovables: s.immovables.push(false),
    }
}

/// One box-spot entity appended, as `create_box_spot` builds it.
pub open spec fn place_box_spot(s: StoresView, x: u8, y: u8, colour: BoxColour) -> StoresView {
    StoresView {
        positions: s.positions.push(Option::Some(Position { x, y, z: GOAL_LAYER })),
        rens: s.rens.push(Option::Some(box_spot_asset_spec(colour))),
        players: s.players.push(false),
        walls: s.walls.push(false),
        boxes: s.boxes.push(Option::None),
        box_spots: s.box_spots.push(Option::Some(BoxSpot { colour })),
        movables: s.movables.push(false),
        immovables: s.immovables.push(false),
    }
}

/// What one placement adds: nothing for an empty cell; otherwise a floor
/// tile beneath, then the cell's own entity where it is not itself a floor.
pub open spec fn apply_placement(s: StoresView, p: Placement) -> StoresView {
    match p.tile {
        TileKind::Empty => s,
        TileKind::Floor => place_floor(s, p.x, p.y),
        TileKind::Wall => place_wall(place_floor(s, p.x, p.y), p.x, p.y),
        TileKind::Player => place_player(place_floor(s, p.x, p.y), p.x, p.y),
        TileKind::BoxTile(colour) => place_box(place_floor(s, p.x, p.y), p.x, p.y, colour),
        TileKind::BoxSpotTile(colour) => place_box_spot(
            place_floor(s, p.x, p.y),
            p.x,
            p.y,
            colour,
        ),
    }
}

/// Every placement applied, in order.
pub open spec fn apply_placements(s: StoresView, ps: Seq<Placement>) -> StoresView
    decreases ps.len(),
{
    if ps.len() == 0 {
        s
    } else {
        apply_placement(apply_placements(s, ps.drop_last()), ps.last())
    }
}

/// Build the entities of every placement, in order.
pub fn build_level(world: &mut World, placements: &Vec<Placement>)
    requires
        old(world).wf(),
        old(world).registry.all(),
    ensures
        final(world).wf(),
        stores_of(*final(world)) == apply_placements(stores_of(*old(world)), placements@),
        final(world).registry == old(world).registry,
        final(world).input_queue == old(world).input_queue,
        final(world).gameplay == old(world).gameplay,
        final(world).time == old(world).time,
{
    let ghost start = stores_of(*world);
    let ghost ps = placements@;
    let n = placements.len();
    let mut k: usize = 0;
    proof {
        assert(ps.take(0) =~= Seq::<Placement>::empty());
    }
    while k < n
        invariant
            n == ps.len(),
            ps == placements@,
            0 <= k <= n,
            world.wf(),
            world.registry.all(),
            world.registry == old(world).registry,
            world.input_queue == old(world).input_queue,
            world.gameplay == old(world).gameplay,
            world.time == old(world).time,
            start == stores_of(*old(world)),
            stores_of(*world) == apply_placements(start, ps.take(k as int)),
        decreases n - k,
    {
        let pl = placements[k];
        let ghost before = stores_of(*world);
        let pos = Position { x: pl.x, y: pl.y, z: 0 };
        match pl.tile {
            TileKind::Empty => {},
            TileKind::Floor => {
                create_floor(world, pos);
            },
            TileKind::Wall => {
                create_floor(world, pos);
                proof {
                    assert(stores_of(*world) == place_floor(before, pl.x, pl.y));
                }
                create_wall(world, pos);
            },
            TileKind::Player => {
                create_floor(world, pos);
                proof {
                    assert(stores_of(*world) == place_floor(before, pl.x, pl.y));
                }
                create_player(world, pos);
            },
            TileKind::BoxTile(colour) => {
                create_floor(world, pos);
                proof {
                    assert(stores_of(*world) == place_floor(before, pl.x, pl.y));
                }
                create_box(world, pos, colour);
            },
            TileKind::BoxSpotTile(colour) => {
                create_floor(world, pos);
                proof {
                    assert(stores_of(*world) == place_floor(before, pl.x, pl.y));
                }
                create_box_spot(world, pos, colour);
            },
        }
        proof {
            assert(stores_of(*world) == apply_placement(before, pl));
            let t1 = ps.take(k + 1);
            assert(t1.drop_last() =~= ps.take(k as int));
            assert(t1.last() == ps[k as int]);
            assert(stores_of(*world) == apply_placements(start, ps.take(k + 1)));
        }
        k = k + 1;
    }
    proof {
        assert(ps.take(n as int) =~= ps);
    }
}

/// Load a level from its text: parse every token, and only if the whole text
/// is well formed, build one entity set per placement, floors beneath. On
/// any error the world is left exactly as it was.
pub fn load_map(world: &mut World, map: &[u8]) -> (r: Result<(), MapError>)
    requires
        old(world).wf(),
        old(world).registry.all(),
    ensures
        final(world).wf(),
        final(world).registry == old(world).registry,
        final(world).input_queue == old(world).input_queue,
        final(world).gameplay == old(world).gameplay,
        final(world).time == old(world).time,
        (match r {
            Result::Ok(()) => parse_map(map@).err is None && stores_of(*final(world))
                == apply_placements(stores_of(*old(world)), parse_map(map@).placements),
            Result::Err(e) => parse_map(map@).err == Option::Some(e) && stores_of(*final(world))
                == stores_of(*old(world)),
        }),
{
    match parse_placements(map) {
        Result::Ok(placements) => {
            build_level(world, &placements);
            Ok(())
        },
        Result::Err(e) => Err(e),
    }
}

/// The placements of the standard level, row by row.
pub open spec fn standard_level() -> Seq<Placement> {
    seq![
        Placement { x: 2, y: 0, tile: TileKind::Wall },
        Placement { x: 3, y: 0, tile: TileKind::Wall },
        Placement { x: 4, y: 0, tile: TileKind::Wall },
        Placement { x: 5, y: 0, tile: TileKind::Wall },
        Placement { x: 6, y: 0, tile: TileKind::Wall },
        Placement { x: 7, y: 0, tile: TileKind::Wall },
        Placement { x: 0, y: 1, tile: TileKind::Wall },
        Placement { x: 1, y: 1, tile: TileKind::Wall },
        Placement { x: 2, y: 1, tile: TileKind::Wall },
        Placement { x: 3, y: 1, tile: TileKind::Floor },
        Placement { x: 4, y: 1, tile: TileKind::Floor },
        Placement { x: 5, y: 1, tile: TileKind::Floor },
        Placement { x: 6, y: 1, tile: TileKind::Floor },
        Placement { x: 7, y: 1, tile: TileKind::Wall },
        Placement { x: 0, y: 2, tile: TileKind::Wall },
        Placement { x: 1, y: 2, tile: TileKind::Floor },
        Placement { x: 2, y: 2, tile: TileKind::Floor },
        Placement { x: 3, y: 2, tile: TileKind::Floor },
        Placement { x: 4, y: 2, tile: TileKind::BoxTile(BoxColour::Blue) },
        Placement { x: 5, y: 2, tile: TileKind::Floor },
        Placement { x: 6, y: 2, tile: TileKind::Floor },
        Placement { x: 7, y: 2, tile: TileKind::Wall },
        Placement { x: 0, y: 3, tile: TileKind::Wall },
        Placement { x: 1, y: 3, tile: TileKind::Floor },
        Placement { x: 2, y: 3, tile: TileKind::Floor },
        Placement { x: 3, y: 3, tile: TileKind::BoxTile(BoxColour::Red) },
        Placement { x: 4, y: 3, tile: TileKind::Floor },
        Placement { x: 5, y: 3, tile: TileKind::Floor },
        Placement { x: 6, y: 3, tile: TileKind::Floor },
        Placement { x: 7, y: 3, tile: TileKind::Wall },
        Placement { x: 0, y: 4, tile: TileKind::Wall },
        Placement { x: 1, y: 4, tile: TileKind::Floor },
        Placement { x: 2, y: 4, tile: TileKind::Player },
        Placement { x: 3, y: 4, tile: TileKind::Floor },
        Placement { x: 4, y: 4, tile: TileKind::Floor },
        Placement { x: 5, y: 4, tile: TileKind::Floor },
        Placement { x: 6, y: 4, tile: TileKind::Floor },
        Placement { x: 7, y: 4, tile: TileKind::Wall },
        Placement { x: 0, y: 5, tile: TileKind::Wall },
        Placement { x: 1, y: 5, tile: TileKind::Floor },
        Placement { x: 2, y: 5, tile: TileKind::Floor },
        Placement { x: 3, y: 5, tile: TileKind::Floor },
        Placement { x: 4, y: 5, tile: TileKind::Floor },
        Placement { x: 5, y: 5, tile: TileKind::BoxSpotTile(BoxColour::Red) },
        Placement { x: 6, y: 5, tile: TileKind::Floor },
        Placement { x: 7, y: 5, tile: TileKind::Wall },
        Placement { x: 0, y: 6, tile: TileKind::Wall },
        Placement { x: 1, y: 6, tile: TileKind::Floor },
        Placement { x: 2, y: 6, tile: TileKind::Floor },
        Placement { x: 3, y: 6, tile: TileKind::BoxSpotTile(BoxColour::Blue) },
        Placement { x: 4, y: 6, tile: TileKind::Floor },
        Placement { x: 5, y: 6, tile: TileKind::Floor },
        Placement { x: 6, y: 6, tile: TileKind::Floor },
        Placement { x: 7, y: 6, tile: TileKind::Wall },
        Placement { x: 0, y: 7, tile: TileKind::Wall },
        Placement { x: 1, y: 7, tile: TileKind::Floor },
        Placement { x: 2, y: 7, tile: TileKind::Floor },
        Placement { x: 3, y: 7, tile: TileKind::Floor },
        Placement { x: 4, y: 7, tile: TileKind::Floor },
        Placement { x: 5, y: 7, tile: TileKind::Floor },
        Placement { x: 6, y: 7, tile: TileKind::Floor },
        Placement { x: 7, y: 7, tile: TileKind::Wall },
        Placement { x: 0, y: 8, tile: TileKind::Wall },
        Placement { x: 1, y: 8, tile: TileKind::Wall },
        Placement { x: 2, y: 8, tile: TileKind::Wall },
        Placement { x: 3, y: 8, tile: TileKind::Wall },
        Placement { x: 4, y: 8, tile: TileKind::Wall },
        Placement { x: 5, y: 8, tile: TileKind::Wall },
        Placement { x: 6, y: 8, tile: TileKind::Wall },
        Placement { x: 7, y: 8, tile: TileKind::Wall }
    ]
}

/// Create the standard level's entities in a world whose component kinds are
/// registered: the fixed map this game ships with.
pub fn initialize_level(world: &mut World)
    requires
        old(world).wf(),
        old(world).registry.all(),
    ensures
        final(world).wf(),
        stores_of(*final(world)) == apply_placements(stores_of(*old(world)), standard_level()),
        final(world).registry == old(world).registry,
        final(world).input_queue == old(world).input_queue,
        final(world).gameplay == old(world).gameplay,
        final(world).time == old(world).time,
{
    let mut v: Vec<Placement> = Vec::new();
    v.push(Placement { x: 2, y: 0, tile: TileKind::Wall });
    v.push(Placement { x: 3, y: 0, tile: TileKind::Wall });
    v.push(Placement { x: 4, y: 0, tile: TileKind::Wall });
    v.push(Placement { x: 5, y: 0, tile: TileKind::Wall });
    v.push(Placement { x: 6, y: 0, tile: TileKind::Wall });
    v.push(Placement { x: 7, y: 0, tile: TileKind::Wall });
    v.push(Placement { x: 0, y: 1, tile: TileKind::Wall });
    v.push(Placement { x: 1, y: 1, tile: TileKind::Wall });
    v.push(Placement { x: 2, y: 1, tile: TileKind::Wall });
    v.push(Placement { x: 3, y: 1, tile: TileKind::Floor });
    v.push(Placement { x: 4, y: 1, tile: TileKind::Floor });
    v.push(Placement { x: 5, y: 1, tile: TileKind::Floor });
    v.push(Placement { x: 6, y: 1, tile: TileKind::Floor });
    v.push(Placement { x: 7, y: 1, tile: TileKind::Wall });
    v.push(Placement { x: 0, y: 2, tile: TileKind::Wall });
    v.push(Placement { x: 1, y: 2, tile: TileKind::Floor });
    v.push(Placement { x: 2, y: 2, tile: TileKind::Floor });
    v.push(Placement { x: 3, y: 2, tile: TileKind::Floor });
    v.push(Placement { x: 4, y: 2, tile: TileKind::BoxTile(BoxColour::Blue) });
    v.push(Placement { x: 5, y: 2, tile: TileKind::Floor });
    v.push(Placement { x: 6, y: 2, tile: TileKind::Floor });
    v.push(Placement { x: 7, y: 2, tile: TileKind::Wall });
    v.push(Placement { x: 0, y: 3, tile: TileKind::Wall });
    v.push(Placement { x: 1, y: 3, tile: TileKind::Floor });
    v.push(Placement { x: 2, y: 3, tile: TileKind::Floor });
    v.push(Placement { x: 3, y: 3, tile: TileKind::BoxTile(BoxColour::Red) });
    v.push(Placement { x: 4, y: 3, tile: TileKind::Floor });
    v.push(Placement { x: 5, y: 3, tile: TileKind::Floor });
    v.push(Placement { x: 6, y: 3, tile: TileKind::Floor });
    v.push(Placement { x: 7, y: 3, tile: TileKind::Wall });
    v.push(Placement { x: 0, y: 4, tile: TileKind::Wall });
    v.push(Placement { x: 1, y: 4, tile: TileKind::Floor });
    v.push(Placement { x: 2, y: 4, tile: TileKind::Player });
    v.push(Placement { x: 3, y: 4, tile: TileKind::Floor });
    v.push(Placement { x: 4, y: 4, tile: TileKind::Floor });
    v.push(Placement { x: 5, y: 4, tile: TileKind::Floor });
    v.push(Placement { x: 6, y: 4, tile: TileKind::Floor });
    v.push(Placement { x: 7, y: 4, tile: TileKind::Wall });
    v.push(Placement { x: 0, y: 5, tile: TileKind::Wall });
    v.push(Placement { x: 1, y: 5, tile: TileKind::Floor });
    v.push(Placement { x: 2, y: 5, tile: TileKind::Floor });
    v.push(Placement { x: 3, y: 5, tile: TileKind::Floor });
    v.push(Placement { x: 4, y: 5, tile: TileKind::Floor });
    v.push(Placement { x: 5, y: 5, tile: TileKind::BoxSpotTile(BoxColour::Red) });
    v.push(Placement { x: 6, y: 5, tile: TileKind::Floor });
    v.push(Placement { x: 7, y: 5, tile: TileKind::Wall });
    v.push(Placement { x: 0, y: 6, tile: TileKind::Wall });
    v.push(Placement { x: 1, y: 6, tile: TileKind::Floor });
    v.push(Placement { x: 2, y: 6, tile: TileKind::Floor });
    v.push(Placement { x: 3, y: 6, tile: TileKind::BoxSpotTile(BoxColour::Blue) });
    v.push(Placement { x: 4, y: 6, tile: TileKind::Floor });
    v.push(Placement { x: 5, y: 6, tile: TileKind::Floor });
    v.push(Placement { x: 6, y: 6, tile: TileKind::Floor });
    v.push(Placement { x: 7, y: 6, tile: TileKind::Wall });
    v.push(Placement { x: 0, y: 7, tile: TileKind::Wall });
    v.push(Placement { x: 1, y: 7, tile: TileKind::Floor });
    v.push(Placement { x: 2, y: 7, tile: TileKind::Floor });
    v.push(Placement { x: 3, y: 7, tile: TileKind::Floor });
    v.push(Placement { x: 4, y: 7, tile: TileKind::Floor });
    v.push(Placement { x: 5, y: 7, tile: TileKind::Floor });
    v.push(Placement { x: 6, y: 7, tile: TileKind::Floor });
    v.push(Placement { x: 7, y: 7, tile: TileKind::Wall });
    v.push(Placement { x: 0, y: 8, tile: TileKind::Wall });
    v.push(Placement { x: 1, y: 8, tile: TileKind::Wall });
    v.push(Placement { x: 2, y: 8, tile: TileKind::Wall });
    v.push(Placement { x: 3, y: 8, tile: TileKind::Wall });
    v.push(Placement { x: 4, y: 8, tile: TileKind::Wall });
    v.push(Placement { x: 5, y: 8, tile: TileKind::Wall });
    v.push(Placement { x: 6, y: 8, tile: TileKind::Wall });
    v.push(Placement { x: 7, y: 8, tile: TileKind::Wall });
    proof {
        assert(v@ =~= standard_level());
    }
    build_level(world, &v);
}

} // verus!

