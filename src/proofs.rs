use vstd::prelude::*;
use crate::entities::{Block, Player, PLAYER_SIZE};
use crate::world::{
    block_within, collide, draw_at, follow, gapped, generate, kept, move_player, next_block, prune,
    GameState, GameView, BLOCK_SPACING, LEAD_BOUND, LOOKAHEAD, TICK_LIMIT,
};

verus! {

/// Bound on the coordinates for which the model's lemmas are stated.
pub const MODEL_LIMIT: i64 = 0x1000_0000_0000_0000;

/// A contiguous part of a gapped sequence is gapped.
pub proof fn lemma_gapped_subrange(bs: Seq<Block>, lo: int, hi: int)
    requires
        gapped(bs),
        0 <= lo <= hi <= bs.len(),
    ensures
        gapped(bs.subrange(lo, hi)),
{
    let s = bs.subrange(lo, hi);
    assert forall|i: int, j: int| 0 <= i < j < s.len() implies s[i].y - s[j].y >= 200 * (j - i) by {
        assert(s[i] == bs[i + lo]);
        assert(s[j] == bs[j + lo]);
    }
}

/// Pruning a gapped sequence drops a prefix of it; the top platform stays
/// if it is kept.
pub proof fn lemma_prune_suffix(bs: Seq<Block>, cam: int, h: int) -> (k: int)
    requires
        gapped(bs),
    ensures
        0 <= k <= bs.len(),
        prune(bs, cam, h) == bs.subrange(k, bs.len() as int),
        bs.len() > 0 && kept(bs.last(), cam, h) ==> k < bs.len(),
    decreases bs.len(),
{
    reveal(Seq::filter);
    if bs.len() == 0 {
        assert(bs.subrange(0, 0) =~= bs);
        0
    } else {
        let t = bs.drop_last();
        lemma_gapped_subrange(bs, 0, bs.len() - 1);
        assert(t =~= bs.subrange(0, bs.len() - 1));
        let k0 = lemma_prune_suffix(t, cam, h);
        assert(prune(bs, cam, h) == (if kept(bs.last(), cam, h) {
            prune(t, cam, h).push(bs.last())
        } else {
            prune(t, cam, h)
        }));
        if kept(bs.last(), cam, h) {
            assert(bs.subrange(k0, bs.len() as int) =~= t.subrange(k0, t.len() as int).push(bs.last()));
            k0
        } else {
            if k0 < t.len() {
                let f = prune(t, cam, h);
                t.lemma_filter_pred(|b: Block| kept(b, cam, h), 0);
                assert(f[0] == t[k0]);
                assert(t[k0] == bs[k0]);
                assert(bs[k0].y - bs[bs.len() - 1].y >= 200 * (bs.len() - 1 - k0));
            }
            assert(bs.subrange(bs.len() as int, bs.len() as int) =~= t.subrange(k0, t.len() as int));
            bs.len() as int
        }
    }
}

/// Generation keeps the sequence gapped, and ends with its top platform at
/// least `LOOKAHEAD` above the camera and, where it added any, less than
/// `LOOKAHEAD + BLOCK_SPACING` above it.
pub proof fn lemma_generate(bs: Seq<Block>, cam: int, w: int, draws: Seq<u32>, k: int)
    requires
        bs.len() > 0,
        gapped(bs),
        -MODEL_LIMIT <= cam,
        -2 * MODEL_LIMIT <= bs.last().y,
    ensures
        ({
            let g = generate(bs, cam, w, draws, k);
            &&& g.len() > 0
            &&& gapped(g)
            &&& g.last().y - cam <= -LOOKAHEAD
            &&& (g == bs || g.last().y - cam > -(LOOKAHEAD + BLOCK_SPACING))
        }),
    decreases (if bs.len() > 0 && bs.last().y - cam + LOOKAHEAD > 0 { bs.last().y - cam + LOOKAHEAD } else { 0 }),
{
    if bs.len() > 0 && bs.last().y - cam > -LOOKAHEAD && bs.last().y >= i64::MIN + BLOCK_SPACING {
        let nb = next_block(bs.last(), w, draw_at(draws, k));
        let next = bs.push(nb);
        assert forall|i: int, j: int| 0 <= i < j < next.len() implies next[i].y - next[j].y >= 200 * (j - i) by {
            if j == next.len() - 1 && i < bs.len() - 1 {
                assert(bs[i].y - bs[bs.len() - 1].y >= 200 * (bs.len() - 1 - i));
            }
        }
        lemma_generate(next, cam, w, draws, k + 1);
    }
}

/// Collisions move the player onto a platform or leave it where it was.
pub proof fn lemma_collide_bounds(p: Player, bs: Seq<Block>, bound: int)
    requires
        -bound <= p.y <= bound,
        0 <= bound <= MODEL_LIMIT,
        p.height == PLAYER_SIZE,
        forall|i: int| 0 <= i < bs.len() ==> -bound <= #[trigger] bs[i].y <= bound,
    ensures
        -bound - PLAYER_SIZE <= collide(p, bs).y <= bound,
        collide(p, bs).height == p.height,
        collide(p, bs).width == p.width,
    decreases bs.len(),
{
    if bs.len() > 0 {
        let t = bs.drop_last();
        assert forall|i: int| 0 <= i < t.len() implies -bound <= #[trigger] t[i].y <= bound by {
            assert(t[i] == bs[i]);
        }
        lemma_collide_bounds(p, t, bound);
        assert(-bound <= bs[bs.len() - 1].y <= bound);
    }
}

/// Every tick keeps the invariant.
pub proof fn lemma_tick_wf(v: GameView, draws: Seq<u32>)
    requires
        v.wf(),
        v.within(TICK_LIMIT as int),
        draws.len() > 0,
    ensures
        v.tick(draws).wf(),
        v.state == GameState::Playing ==> v.tick(draws).blocks[0].y - v.tick(draws).camera_y < 2
            * v.height,
{
    if v.state == GameState::Playing {
        let w = v.width as int;
        let h = v.height as int;
        let m = move_player(v.player, w);
        assert(-4 * TICK_LIMIT <= m.y <= 4 * TICK_LIMIT);
        lemma_collide_bounds(m, v.blocks, 4 * TICK_LIMIT);
        let p = collide(m, v.blocks);
        let cam = follow(v.camera_y, p.y as int, h);
        assert(block_within(v.blocks[v.blocks.len() - 1], TICK_LIMIT as int));
        lemma_generate(v.blocks, cam, w, draws, 0);
        let g = generate(v.blocks, cam, w, draws, 0);
        let k = lemma_prune_suffix(g, cam, h);
        lemma_gapped_subrange(g, k, g.len() as int);
        let r = v.tick(draws);
        assert(r.blocks == g.subrange(k, g.len() as int));
        assert(r.blocks.last() == g.last());
        assert(r.blocks.len() > 0);
        g.lemma_filter_pred(|b: Block| kept(b, cam, h), 0);
        assert(r.player.width == PLAYER_SIZE);
        assert(r.score >= 0);
        assert(gapped(r.blocks));
        assert(cam <= v.camera_y);
        assert(r.blocks.last().y - r.camera_y >= -LEAD_BOUND);
    }
}

} // verus!
