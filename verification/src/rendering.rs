//! The rendering pass: join the position and visual stores, group the result
//! into per-layer, per-asset batches, and emit the batches in ascending layer
//! order together with the text overlays.
//!
//! Grouping is deterministic: batches are ordered by layer, and within one
//! layer by first appearance of their asset in the join, which itself walks
//! entities in index order. Running the pass twice on an unchanged world
//! therefore yields identical output.

use vstd::prelude::*;
use vstd::string::StringExecFns;

use crate::components::{Position, Renderable};
use crate::resources::state_name_spec;
use crate::world::World;

verus! {

/// Screen pixels per grid cell: `screen = grid_coord * TILE_WIDTH`.
pub const TILE_WIDTH: u32 = 32;

/// A destination on screen, in pixels.
#[derive(Clone, Copy, PartialEq, Eq, Structural, Debug)]
pub struct ScreenPos {
    pub x: u32,
    pub y: u32,
}

/// One draw submission: every destination at which one asset is drawn
/// within one layer.
#[derive(Clone, Debug)]
pub struct Batch {
    pub layer: u8,
    pub asset: String,
    pub dests: Vec<ScreenPos>,
}

/// Mathematical model of a batch.
pub ghost struct BatchView {
    pub layer: u8,
    pub asset: Seq<char>,
    pub dests: Seq<ScreenPos>,
}

impl View for Batch {
    type V = BatchView;

    open spec fn view(&self) -> BatchView {
        BatchView { layer: self.layer, asset: self.asset@, dests: self.dests@ }
    }
}

/// Mathematical model of one joined entity: its position and asset.
pub ghost struct PairView {
    pub pos: Position,
    pub asset: Seq<char>,
}

/// Where an entity at the given grid position is drawn on screen.
pub open spec fn dest_of(pos: Position) -> ScreenPos {
    ScreenPos {
        x: ((pos.x as nat) * (TILE_WIDTH as nat)) as u32,
        y: ((pos.y as nat) * (TILE_WIDTH as nat)) as u32,
    }
}

/// The batch sequence of batch views.
pub open spec fn bviews(s: Seq<Batch>) -> Seq<BatchView> {
    s.map(|i: int, b: Batch| b@)
}

/// The pair views of the join's output.
pub open spec fn pviews(s: Seq<(Position, String)>) -> Seq<PairView> {
    s.map(|i: int, p: (Position, String)| PairView { pos: p.0, asset: p.1@ })
}

/// Does this batch collect exactly this pair's layer and asset?
pub open spec fn key_match(b: BatchView, p: PairView) -> bool {
    b.layer == p.pos.z && b.asset == p.asset
}

/// A fresh batch holding just this pair.
pub open spec fn new_batch_view(p: PairView) -> BatchView {
    BatchView { layer: p.pos.z, asset: p.asset, dests: seq![dest_of(p.pos)] }
}

/// The batch with this pair's destination appended.
pub open spec fn with_dest(b: BatchView, p: PairView) -> BatchView {
    BatchView { layer: b.layer, asset: b.asset, dests: b.dests.push(dest_of(p.pos)) }
}

/// Add one pair to a batch sequence: scan past batches of lower-or-equal
/// layer; append the destination to the batch with the pair's key if one is
/// found, otherwise start a new batch at the end of the pair's layer group.
pub open spec fn insert_pair(bs: Seq<BatchView>, p: PairView) -> Seq<BatchView>
    decreases bs.len(),
{
    if bs.len() == 0 {
        seq![new_batch_view(p)]
    } else if key_match(bs[0], p) {
        seq![with_dest(bs[0], p)] + bs.drop_first()
    } else if bs[0].layer > p.pos.z {
        seq![new_batch_view(p)] + bs
    } else {
        seq![bs[0]] + insert_pair(bs.drop_first(), p)
    }
}

/// The full grouping: fold every joined pair, in join order, into batches.
pub open spec fn batches_spec(pairs: Seq<PairView>) -> Seq<BatchView>
    decreases pairs.len(),
{
    if pairs.len() == 0 {
        Seq::empty()
    } else {
        insert_pair(batches_spec(pairs.drop_last()), pairs.last())
    }
}

/// Batches never place a lower layer after a higher one.
pub open spec fn layers_sorted(bs: Seq<BatchView>) -> bool {
    forall|i: int, j: int| 0 <= i <= j < bs.len() ==> bs[i].layer <= bs[j].layer
}

/// No two batches share a (layer, asset) key.
pub open spec fn keys_distinct(bs: Seq<BatchView>) -> bool {
    forall|i: int, j: int|
        0 <= i < j < bs.len() ==> !(bs[i].layer == bs[j].layer && bs[i].asset == bs[j].asset)
}

/// Is some batch keyed by this layer and asset?
pub open spec fn has_key(bs: Seq<BatchView>, layer: u8, asset: Seq<char>) -> bool
    decreases bs.len(),
{
    if bs.len() == 0 {
        false
    } else if bs[0].layer == layer && bs[0].asset == asset {
        true
    } else {
        has_key(bs.drop_first(), layer, asset)
    }
}

/// The destinations of the first batch keyed by this layer and asset, or the
/// empty sequence if there is none.
pub open spec fn dests_for(bs: Seq<BatchView>, layer: u8, asset: Seq<char>) -> Seq<ScreenPos>
    decreases bs.len(),
{
    if bs.len() == 0 {
        Seq::empty()
    } else if bs[0].layer == layer && bs[0].asset == asset {
        bs[0].dests
    } else {
        dests_for(bs.drop_first(), layer, asset)
    }
}

/// The destinations that the join owes to one (layer, asset) key: one entry
/// per joined entity with that key, in join order.
pub open spec fn sel(pairs: Seq<PairView>, layer: u8, asset: Seq<char>) -> Seq<ScreenPos>
    decreases pairs.len(),
{
    if pairs.len() == 0 {
        Seq::empty()
    } else {
        let rest = sel(pairs.drop_last(), layer, asset);
        if pairs.last().pos.z == layer && pairs.last().asset == asset {
            rest.push(dest_of(pairs.last().pos))
        } else {
            rest
        }
    }
}

/// The join of the position and visual stores: one pair per entity carrying
/// both, in entity index order.
pub open spec fn join_spec(ps: Seq<Option<Position>>, rs: Seq<Option<Seq<char>>>) -> Seq<PairView>
    decreases ps.len(),
{
    if ps.len() == 0 {
        Seq::empty()
    } else {
        let rest = join_spec(ps.drop_last(), rs.drop_last());
        match (ps.last(), rs[ps.len() - 1]) {
            (Option::Some(pos), Option::Some(asset)) => rest.push(PairView { pos, asset }),
            _ => rest,
        }
    }
}

/// Collect the entities carrying both a position and a visual, in entity
/// index order.
pub fn join_position_renderable(world: &World) -> (out: Vec<(Position, String)>)
    requires
        world.wf(),
        world.registry.position,
        world.registry.renderable,
    ensures
        pviews(out@) == join_spec(world.positions@, world.rens()),
{
    let ghost ps = world.positions@;
    let ghost rs = world.rens();
    let mut out: Vec<(Position, String)> = Vec::new();
    let n = world.positions.len();
    let mut i: usize = 0;
    while i < n
        invariant
            world.wf(),
            n == ps.len(),
            ps == world.positions@,
            rs == world.rens(),
            0 <= i <= n,
            pviews(out@) == join_spec(ps.take(i as int), rs.take(i as int)),
        decreases n - i,
    {
        let ghost prev = pviews(out@);
        match (&world.positions[i], &world.renderables[i]) {
            (Option::Some(pos), Option::Some(ren)) => {
                let pair = (*pos, ren.path.clone());
                out.push(pair);
                proof {
                    assert(rs[i as int] == Option::Some(ren.path@));
                    assert(pviews(out@) =~= prev.push(PairView { pos: *pos, asset: ren.path@ }));
                }
            },
            _ => {
                proof {
                    assert(rs[i as int] == crate::world::ren_view(world.renderables@[i as int]));
                }
            },
        }
        proof {
            let t1 = ps.take(i + 1);
            let r1 = rs.take(i + 1);
            assert(t1.drop_last() =~= ps.take(i as int));
            assert(r1.drop_last() =~= rs.take(i as int));
            assert(t1.last() == ps[i as int]);
            assert(r1[t1.len() - 1] == rs[i as int]);
            assert(pviews(out@) =~= join_spec(ps.take(i + 1), rs.take(i + 1)));
        }
        i = i + 1;
    }
    proof {
        assert(ps.take(n as int) =~= ps);
        assert(rs.take(n as int) =~= rs);
    }
    out
}

/// Fold one pair into the accumulated batches, as `insert_pair` says.
fn add_pair(batches: &mut Vec<Batch>, pos: Position, path: String)
    ensures
        bviews(final(batches)@) == insert_pair(
            bviews(old(batches)@),
            (PairView { pos, asset: path@ }),
        ),
{
    let ghost whole = bviews(batches@);
    let ghost p = PairView { pos: pos, asset: path@ };
    let n = batches.len();
    let mut i: usize = 0;
    proof {
        assert(whole.skip(0) =~= whole);
        assert(whole.take(0) + insert_pair(whole.skip(0), p) =~= insert_pair(whole, p));
    }
    while i < n
        invariant
            n == batches@.len(),
            whole == bviews(batches@),
            whole == bviews(old(batches)@),
            p == (PairView { pos: pos, asset: path@ }),
            0 <= i <= n,
            forall|j: int| 0 <= j < i ==> !key_match(whole[j], p) && whole[j].layer <= p.pos.z,
            insert_pair(whole, p) == whole.take(i as int) + insert_pair(whole.skip(i as int), p),
        decreases n - i,
    {
        let ghost sk = whole.skip(i as int);
        proof {
            assert(sk.len() == n - i);
            assert(sk[0] == whole[i as int]);
            assert(whole[i as int] == batches@[i as int]@);
        }
        if batches[i].layer == pos.z && batches[i].asset == path {
            proof {
                assert(whole[i as int].layer == p.pos.z);
                assert(whole[i as int].asset == p.asset);
                assert(key_match(sk[0], p));
                assert(insert_pair(sk, p) == seq![with_dest(sk[0], p)] + sk.drop_first());
                assert(sk.drop_first() =~= whole.skip(i + 1));
            }
            let mut b = batches.remove(i);
            let d = ScreenPos { x: (pos.x as u32) * TILE_WIDTH, y: (pos.y as u32) * TILE_WIDTH };
            b.dests.push(d);
            batches.insert(i, b);
            proof {
                assert(b@ == with_dest(whole[i as int], p));
                assert(bviews(batches@) =~= whole.update(i as int, with_dest(whole[i as int], p)));
                assert(whole.update(i as int, with_dest(whole[i as int], p)) =~= whole.take(
                    i as int,
                ) + (seq![with_dest(whole[i as int], p)] + whole.skip(i + 1)));
            }
            return ;
        }
        if batches[i].layer > pos.z {
            proof {
                assert(sk[0].layer > p.pos.z);
                assert(!key_match(sk[0], p));
                assert(insert_pair(sk, p) == seq![new_batch_view(p)] + sk);
            }
            let mut ds: Vec<ScreenPos> = Vec::new();
            ds.push(ScreenPos { x: (pos.x as u32) * TILE_WIDTH, y: (pos.y as u32) * TILE_WIDTH });
            let nb = Batch { layer: pos.z, asset: path, dests: ds };
            batches.insert(i, nb);
            proof {
                assert(bviews(batches@) =~= whole.take(i as int) + (seq![new_batch_view(p)]
                    + whole.skip(i as int)));
            }
            return ;
        }
        proof {
            assert(!key_match(sk[0], p) && sk[0].layer <= p.pos.z);
            assert(insert_pair(sk, p) == seq![sk[0]] + insert_pair(sk.drop_first(), p));
            assert(sk.drop_first() =~= whole.skip(i + 1));
            assert(whole.take(i as int) + seq![whole[i as int]] =~= whole.take(i + 1));
            assert(whole.take(i as int) + insert_pair(whole.skip(i as int), p) =~= whole.take(i + 1)
                + insert_pair(whole.skip(i + 1), p));
        }
        i = i + 1;
    }
    proof {
        let sk = whole.skip(n as int);
        assert(sk.len() == 0);
        assert(insert_pair(sk, p) == seq![new_batch_view(p)]);
        assert(whole.take(n as int) =~= whole);
    }
    let mut ds: Vec<ScreenPos> = Vec::new();
    ds.push(ScreenPos { x: (pos.x as u32) * TILE_WIDTH, y: (pos.y as u32) * TILE_WIDTH });
    let nb = Batch { layer: pos.z, asset: path, dests: ds };
    batches.push(nb);
    proof {
        assert(bviews(batches@) =~= whole + seq![new_batch_view(p)]);
        assert(whole + seq![new_batch_view(p)] =~= whole.take(n as int) + insert_pair(
            whole.skip(n as int),
            p,
        ));
    }
}

/// Group the joined pairs into batches, in join order.
pub fn build_batches(pairs: &Vec<(Position, String)>) -> (batches: Vec<Batch>)
    ensures
        bviews(batches@) == batches_spec(pviews(pairs@)),
{
    let ghost pv = pviews(pairs@);
    let mut batches: Vec<Batch> = Vec::new();
    let mut k: usize = 0;
    while k < pairs.len()
        invariant
            0 <= k <= pairs@.len(),
            pv == pviews(pairs@),
            bviews(batches@) == batches_spec(pv.take(k as int)),
        decreases pairs@.len() - k,
    {
        let pos = pairs[k].0;
        let path = pairs[k].1.clone();
        proof {
            assert(pv[k as int] == (PairView { pos, asset: path@ }));
        }
        add_pair(&mut batches, pos, path);
        proof {
            let t1 = pv.take(k + 1);
            assert(t1.drop_last() =~= pv.take(k as int));
            assert(t1.last() == pv[k as int]);
            assert(bviews(batches@) =~= batches_spec(pv.take(k + 1)));
        }
        k = k + 1;
    }
    proof {
        assert(pv.take(pairs@.len() as int) =~= pv);
    }
    batches
}

/// A sequence without this layer holds no key of it and owes it nothing.
proof fn lemma_no_key_of_layer(bs: Seq<BatchView>, layer: u8, asset: Seq<char>)
    requires
        forall|i: int| 0 <= i < bs.len() ==> bs[i].layer != layer,
    ensures
        !has_key(bs, layer, asset),
        dests_for(bs, layer, asset) == Seq::<ScreenPos>::empty(),
    decreases bs.len(),
{
    if bs.len() > 0 {
        assert forall|i: int| 0 <= i < bs.drop_first().len() implies bs.drop_first()[i].layer
            != layer by {
            assert(bs.drop_first()[i] == bs[i + 1]);
        }
        lemma_no_key_of_layer(bs.drop_first(), layer, asset);
    }
}

/// Inserting a pair no lower than a bound keeps every batch at or above it.
proof fn lemma_insert_min_layer(bs: Seq<BatchView>, p: PairView, bound: u8)
    requires
        forall|i: int| 0 <= i < bs.len() ==> bs[i].layer >= bound,
        p.pos.z >= bound,
    ensures
        forall|j: int|
            0 <= j < insert_pair(bs, p).len() ==> insert_pair(bs, p)[j].layer >= bound,
    decreases bs.len(),
{
    let ip = insert_pair(bs, p);
    if bs.len() == 0 {
        assert(ip[0] == new_batch_view(p));
    } else if key_match(bs[0], p) {
        assert forall|j: int| 0 <= j < ip.len() implies ip[j].layer >= bound by {
            if j > 0 {
                assert(ip[j] == bs[j]);
            }
        }
    } else if bs[0].layer > p.pos.z {
        assert forall|j: int| 0 <= j < ip.len() implies ip[j].layer >= bound by {
            if j > 0 {
                assert(ip[j] == bs[j - 1]);
            }
        }
    } else {
        let rest = bs.drop_first();
        assert forall|i: int| 0 <= i < rest.len() implies rest[i].layer >= bound by {
            assert(rest[i] == bs[i + 1]);
        }
        lemma_insert_min_layer(rest, p, bound);
        assert forall|j: int| 0 <= j < ip.len() implies ip[j].layer >= bound by {
            if j > 0 {
                assert(ip[j] == insert_pair(rest, p)[j - 1]);
            }
        }
    }
}

/// A key is held exactly when some batch carries it.
proof fn lemma_has_key_exists(bs: Seq<BatchView>, layer: u8, asset: Seq<char>)
    ensures
        has_key(bs, layer, asset) <==> exists|i: int|
            0 <= i < bs.len() && bs[i].layer == layer && bs[i].asset == asset,
    decreases bs.len(),
{
    if bs.len() > 0 {
        lemma_has_key_exists(bs.drop_first(), layer, asset);
        if bs[0].layer == layer && bs[0].asset == asset {
            assert(bs[0].layer == layer && bs[0].asset == asset);
        } else {
            if has_key(bs.drop_first(), layer, asset) {
                let i = choose|i: int|
                    0 <= i < bs.drop_first().len() && bs.drop_first()[i].layer == layer
                        && bs.drop_first()[i].asset == asset;
                assert(bs[i + 1] == bs.drop_first()[i]);
            }
            if exists|i: int| 0 <= i < bs.len() && bs[i].layer == layer && bs[i].asset == asset {
                let i = choose|i: int|
                    0 <= i < bs.len() && bs[i].layer == layer && bs[i].asset == asset;
                assert(i > 0);
                assert(bs.drop_first()[i - 1] == bs[i]);
            }
        }
    }
}

/// What `insert_pair` does, stated over keys: order stays sorted, keys stay
/// distinct, the pair's key gains exactly its destination, every other key
/// is untouched.
proof fn lemma_insert_pair_props(bs: Seq<BatchView>, p: PairView)
    requires
        layers_sorted(bs),
        keys_distinct(bs),
    ensures
        layers_sorted(insert_pair(bs, p)),
        keys_distinct(insert_pair(bs, p)),
        forall|l: u8, a: Seq<char>|
            #![trigger has_key(insert_pair(bs, p), l, a)]
            has_key(insert_pair(bs, p), l, a) <==> (has_key(bs, l, a) || (l == p.pos.z && a
                == p.asset)),
        dests_for(insert_pair(bs, p), p.pos.z, p.asset) == dests_for(
            bs,
            p.pos.z,
            p.asset,
        ).push(dest_of(p.pos)),
        forall|l: u8, a: Seq<char>|
            #![trigger dests_for(insert_pair(bs, p), l, a)]
            !(l == p.pos.z && a == p.asset) ==> dests_for(insert_pair(bs, p), l, a) == dests_for(
                bs,
                l,
                a,
            ),
    decreases bs.len(),
{
    let ip = insert_pair(bs, p);
    if bs.len() == 0 {
        assert(ip =~= seq![new_batch_view(p)]);
        assert(ip.drop_first() =~= Seq::<BatchView>::empty());
        assert forall|l: u8, a: Seq<char>|
            has_key(ip, l, a) <==> (has_key(bs, l, a) || (l == p.pos.z && a == p.asset)) by {
            assert(ip[0] == new_batch_view(p));
            assert(!has_key(ip.drop_first(), l, a));
            assert(!has_key(bs, l, a));
        }
        assert(dests_for(ip, p.pos.z, p.asset) =~= dests_for(bs, p.pos.z, p.asset).push(
            dest_of(p.pos),
        ));
        assert forall|l: u8, a: Seq<char>|
            !(l == p.pos.z && a == p.asset) implies dests_for(ip, l, a) == dests_for(bs, l, a) by {
            assert(dests_for(ip, l, a) == dests_for(ip.drop_first(), l, a));
            assert(dests_for(ip, l, a) =~= dests_for(bs, l, a));
        }
    } else if key_match(bs[0], p) {
        assert(ip =~= seq![with_dest(bs[0], p)] + bs.drop_first());
        assert(ip.len() == bs.len());
        assert(forall|j: int| 1 <= j < ip.len() ==> ip[j] == bs[j]);
        assert(ip[0].layer == bs[0].layer && ip[0].asset == bs[0].asset);
        assert(layers_sorted(ip));
        assert(keys_distinct(ip));
        assert(ip.drop_first() =~= bs.drop_first());
        assert forall|l: u8, a: Seq<char>|
            has_key(ip, l, a) <==> (has_key(bs, l, a) || (l == p.pos.z && a == p.asset)) by {
            assert(has_key(ip.drop_first(), l, a) == has_key(bs.drop_first(), l, a));
        }
        assert(dests_for(ip, p.pos.z, p.asset) == bs[0].dests.push(dest_of(p.pos)));
        assert(dests_for(bs, p.pos.z, p.asset) == bs[0].dests);
        assert forall|l: u8, a: Seq<char>|
            !(l == p.pos.z && a == p.asset) implies dests_for(ip, l, a) == dests_for(bs, l, a) by {
            assert(dests_for(ip.drop_first(), l, a) == dests_for(bs.drop_first(), l, a));
        }
    } else if bs[0].layer > p.pos.z {
        assert(ip =~= seq![new_batch_view(p)] + bs);
        assert(ip[0] == new_batch_view(p));
        assert(forall|j: int| 1 <= j < ip.len() ==> ip[j] == bs[j - 1]);
        assert forall|i: int, j: int| 0 <= i <= j < ip.len() implies ip[i].layer
            <= ip[j].layer by {
            if i > 0 {
                assert(bs[0].layer <= bs[j - 1].layer);
            } else if j > 0 {
                assert(bs[0].layer <= bs[j - 1].layer);
            }
        }
        assert forall|i: int| 0 <= i < bs.len() implies bs[i].layer != p.pos.z by {
            assert(bs[0].layer <= bs[i].layer);
        }
        lemma_no_key_of_layer(bs, p.pos.z, p.asset);
        assert(keys_distinct(ip));
        assert(ip.drop_first() =~= bs);
        assert forall|l: u8, a: Seq<char>|
            has_key(ip, l, a) <==> (has_key(bs, l, a) || (l == p.pos.z && a == p.asset)) by {
            assert(has_key(ip.drop_first(), l, a) == has_key(bs, l, a));
        }
        assert(dests_for(ip, p.pos.z, p.asset) == new_batch_view(p).dests);
        assert(dests_for(ip, p.pos.z, p.asset) =~= dests_for(bs, p.pos.z, p.asset).push(
            dest_of(p.pos),
        ));
        assert forall|l: u8, a: Seq<char>|
            !(l == p.pos.z && a == p.asset) implies dests_for(ip, l, a) == dests_for(bs, l, a) by {
            assert(dests_for(ip.drop_first(), l, a) == dests_for(bs, l, a));
        }
    } else {
        let rest = bs.drop_first();
        assert(forall|i: int| 0 <= i < rest.len() ==> rest[i] == bs[i + 1]);
        assert(layers_sorted(rest));
        assert(keys_distinct(rest));
        lemma_insert_pair_props(rest, p);
        let ir = insert_pair(rest, p);
        assert(ip =~= seq![bs[0]] + ir);
        assert(ip[0] == bs[0]);
        assert(forall|j: int| 1 <= j < ip.len() ==> ip[j] == ir[j - 1]);
        assert(forall|i: int| 0 <= i < rest.len() ==> rest[i].layer >= bs[0].layer);
        lemma_insert_min_layer(rest, p, bs[0].layer);
        assert(layers_sorted(ip));
        // the head key is not the pair's key and occurs nowhere in `ir`
        assert(!(bs[0].layer == p.pos.z && bs[0].asset == p.asset));
        lemma_has_key_exists(rest, bs[0].layer, bs[0].asset);
        assert(!has_key(rest, bs[0].layer, bs[0].asset));
        assert(!has_key(insert_pair(rest, p), bs[0].layer, bs[0].asset));
        lemma_has_key_exists(ir, bs[0].layer, bs[0].asset);
        assert forall|i: int, j: int| 0 <= i < j < ip.len() implies !(ip[i].layer == ip[j].layer
            && ip[i].asset == ip[j].asset) by {
            if i == 0 {
                assert(ip[j] == ir[j - 1]);
                if ip[0].layer == ip[j].layer && ip[0].asset == ip[j].asset {
                    assert(exists|k: int|
                        0 <= k < ir.len() && ir[k].layer == bs[0].layer && ir[k].asset
                            == bs[0].asset);
                }
            } else {
                assert(ip[i] == ir[i - 1] && ip[j] == ir[j - 1]);
            }
        }
        assert(ip.drop_first() =~= ir);
        assert forall|l: u8, a: Seq<char>|
            has_key(ip, l, a) <==> (has_key(bs, l, a) || (l == p.pos.z && a == p.asset)) by {
            assert(has_key(insert_pair(rest, p), l, a) <==> (has_key(rest, l, a) || (l == p.pos.z
                && a == p.asset)));
            assert(has_key(ip.drop_first(), l, a) == has_key(ir, l, a));
            assert(has_key(bs, l, a) == ((bs[0].layer == l && bs[0].asset == a) || has_key(
                rest,
                l,
                a,
            )));
        }
        assert(dests_for(insert_pair(rest, p), p.pos.z, p.asset) == dests_for(
            rest,
            p.pos.z,
            p.asset,
        ).push(dest_of(p.pos)));
        assert(dests_for(ip, p.pos.z, p.asset) == dests_for(ir, p.pos.z, p.asset));
        assert(dests_for(bs, p.pos.z, p.asset) == dests_for(rest, p.pos.z, p.asset));
        assert forall|l: u8, a: Seq<char>|
            !(l == p.pos.z && a == p.asset) implies dests_for(ip, l, a) == dests_for(bs, l, a) by {
            if bs[0].layer == l && bs[0].asset == a {
                assert(dests_for(ip, l, a) == bs[0].dests);
            } else {
                assert(dests_for(insert_pair(rest, p), l, a) == dests_for(rest, l, a));
                assert(dests_for(ip, l, a) == dests_for(ir, l, a));
                assert(dests_for(bs, l, a) == dests_for(rest, l, a));
            }
        }
    }
}


/// What the whole grouping owes: batches sorted by layer, one batch per key,
/// and for every key exactly the destinations the join supplies, in join
/// order.
pub proof fn lemma_batches_spec_props(pairs: Seq<PairView>)
    ensures
        layers_sorted(batches_spec(pairs)),
        keys_distinct(batches_spec(pairs)),
        forall|l: u8, a: Seq<char>|
            #![trigger dests_for(batches_spec(pairs), l, a)]
            dests_for(batches_spec(pairs), l, a) == sel(pairs, l, a),
        forall|l: u8, a: Seq<char>|
            #![trigger has_key(batches_spec(pairs), l, a)]
            has_key(batches_spec(pairs), l, a) <==> sel(pairs, l, a).len() > 0,
    decreases pairs.len(),
{
    if pairs.len() == 0 {
        assert(batches_spec(pairs) =~= Seq::<BatchView>::empty());
    } else {
        let prev = batches_spec(pairs.drop_last());
        let p = pairs.last();
        lemma_batches_spec_props(pairs.drop_last());
        lemma_insert_pair_props(prev, p);
        assert forall|l: u8, a: Seq<char>| dests_for(batches_spec(pairs), l, a) == sel(
            pairs,
            l,
            a,
        ) by {
            if l == p.pos.z && a == p.asset {
                assert(dests_for(batches_spec(pairs), l, a) == dests_for(prev, l, a).push(
                    dest_of(p.pos),
                ));
                assert(dests_for(prev, l, a) == sel(pairs.drop_last(), l, a));
            } else {
                assert(dests_for(batches_spec(pairs), l, a) == dests_for(prev, l, a));
                assert(dests_for(prev, l, a) == sel(pairs.drop_last(), l, a));
            }
        }
        assert forall|l: u8, a: Seq<char>|
            has_key(batches_spec(pairs), l, a) <==> sel(pairs, l, a).len() > 0 by {
            assert(has_key(batches_spec(pairs), l, a) <==> (has_key(prev, l, a) || (l == p.pos.z
                && a == p.asset)));
            assert(has_key(prev, l, a) <==> sel(pairs.drop_last(), l, a).len() > 0);
        }
    }
}

/// The batches the rendering pass emits for a world: the grouped join of the
/// position and visual stores.
pub open spec fn render_batches_spec(w: World) -> Seq<BatchView> {
    batches_spec(join_spec(w.positions@, w.rens()))
}

/// Layer-order invariant: the emitted batch sequence never places a batch of
/// a lower layer after one of a higher layer; equivalently, every batch of
/// layer `L1 < L2` stands strictly before any batch of layer `L2`.
pub proof fn lemma_layer_order(w: World)
    ensures
        layers_sorted(render_batches_spec(w)),
        forall|i: int, j: int|
            0 <= i < render_batches_spec(w).len() && 0 <= j < render_batches_spec(w).len()
                && render_batches_spec(w)[i].layer < render_batches_spec(w)[j].layer ==> i < j,
{
    lemma_batches_spec_props(join_spec(w.positions@, w.rens()));
}

/// Batch cardinality: entities sharing one (layer, asset) key appear in
/// exactly one batch — no two batches share a key, a key has a batch exactly
/// when the join supplies it, and that batch carries one destination per
/// joined entity of the key, in join order, with nothing added or dropped.
pub proof fn lemma_batch_contents(w: World)
    ensures
        keys_distinct(render_batches_spec(w)),
        forall|l: u8, a: Seq<char>|
            #![trigger has_key(render_batches_spec(w), l, a)]
            has_key(render_batches_spec(w), l, a) <==> sel(
                join_spec(w.positions@, w.rens()),
                l,
                a,
            ).len() > 0,
        forall|l: u8, a: Seq<char>|
            #![trigger dests_for(render_batches_spec(w), l, a)]
            dests_for(render_batches_spec(w), l, a) == sel(join_spec(w.positions@, w.rens()), l, a),
{
    lemma_batches_spec_props(join_spec(w.positions@, w.rens()));
}

/// The decimal digit characters.
pub open spec fn digit_char(d: nat) -> char {
    if d == 0 {
        '0'
    } else if d == 1 {
        '1'
    } else if d == 2 {
        '2'
    } else if d == 3 {
        '3'
    } else if d == 4 {
        '4'
    } else if d == 5 {
        '5'
    } else if d == 6 {
        '6'
    } else if d == 7 {
        '7'
    } else if d == 8 {
        '8'
    } else {
        '9'
    }
}

/// The decimal notation of a number, most significant digit first, with no
/// leading zero except for zero itself.
pub open spec fn dec_str_spec(n: nat) -> Seq<char>
    decreases n,
{
    if n < 10 {
        seq![digit_char(n)]
    } else {
        dec_str_spec(n / 10) + seq![digit_char(n % 10)]
    }
}

/// One decimal digit as text.
fn digit_str(d: u32) -> (s: &'static str)
    requires
        d < 10,
    ensures
        s@ == seq![digit_char(d as nat)],
{
    let s: &'static str = match d {
        0 => "0",
        1 => "1",
        2 => "2",
        3 => "3",
        4 => "4",
        5 => "5",
        6 => "6",
        7 => "7",
        8 => "8",
        _ => "9",
    };
    proof {
        reveal_strlit("0");
        reveal_strlit("1");
        reveal_strlit("2");
        reveal_strlit("3");
        reveal_strlit("4");
        reveal_strlit("5");
        reveal_strlit("6");
        reveal_strlit("7");
        reveal_strlit("8");
        reveal_strlit("9");
        assert(s@ =~= seq![digit_char(d as nat)]);
    }
    s
}

/// A number in decimal notation, for the move-count overlay.
pub fn u32_string(n: u32) -> (s: String)
    ensures
        s@ == dec_str_spec(n as nat),
    decreases n,
{
    if n < 10 {
        digit_str(n).to_owned()
    } else {
        let mut s = u32_string(n / 10);
        s.append(digit_str(n % 10));
        proof {
            assert(s@ =~= dec_str_spec(n as nat));
        }
        s
    }
}

/// One frame's submission: the batches in emission order, then the phase and
/// move-count overlays, always drawn last. The measured frames-per-second
/// overlay comes from the presentation backend, not from world state.
pub struct Frame {
    pub batches: Vec<Batch>,
    pub state_text: String,
    pub moves_text: String,
}

/// Mathematical model of a frame.
pub ghost struct FrameView {
    pub batches: Seq<BatchView>,
    pub state_text: Seq<char>,
    pub moves_text: Seq<char>,
}

impl View for Frame {
    type V = FrameView;

    open spec fn view(&self) -> FrameView {
        FrameView {
            batches: bviews(self.batches@),
            state_text: self.state_text@,
            moves_text: self.moves_text@,
        }
    }
}

/// What the rendering pass emits for a world: its batches plus the overlay
/// texts, a pure function of the world.
pub open spec fn frame_spec(w: World) -> FrameView {
    FrameView {
        batches: render_batches_spec(w),
        state_text: state_name_spec(w.gameplay.state),
        moves_text: dec_str_spec(w.gameplay.moves_count as nat),
    }
}

/// Determinism: the emitted frame is a pure function of the world, so two
/// passes over an unchanged world yield identical batch contents and
/// identical batch order.
pub proof fn lemma_render_deterministic(w: World, f1: FrameView, f2: FrameView)
    requires
        f1 == frame_spec(w),
        f2 == frame_spec(w),
    ensures
        f1 == f2,
{
}

/// The rendering pass. It reads the world and produces one frame; it holds
/// no state of its own, and the presentation backend that consumes the frame
/// lives outside this core.
pub struct RenderingSystem {}

impl RenderingSystem {
    /// Select the image of a renderable. Current archetypes carry a single
    /// static image, so the frame delta does not yet take part.
    pub fn get_image(&self, renderable: &Renderable, delta: u64) -> (path: String)
        ensures
            path@ == renderable.path@,
    {
        renderable.path.clone()
    }

    /// Produce one frame from the current world state: join the position and
    /// visual stores, group into batches by layer and asset, and attach the
    /// overlay texts. Reads only; the world is left exactly as it was.
    pub fn run(&self, world: &World) -> (frame: Frame)
        requires
            world.wf(),
            world.registry.position,
            world.registry.renderable,
        ensures
            frame@ == frame_spec(*world),
    {
        let pairs = join_position_renderable(world);
        let batches = build_batches(&pairs);
        let state_text = world.gameplay.state.name().to_owned();
        let moves_text = u32_string(world.gameplay.moves_count);
        Frame { batches, state_text, moves_text }
    }
}

} // verus!
