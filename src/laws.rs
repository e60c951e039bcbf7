use vstd::prelude::*;
use crate::proofs::lemma_tick_wf;
use crate::render::rect;
use crate::render::Color;
use crate::world::{Direction, GameState, GameView, LEAD_BOUND, TICK_LIMIT};

verus! {

/// A tick never lowers the score and never moves the camera down.
pub proof fn lemma_tick_monotone(v: GameView, draws: Seq<u32>)
    ensures
        v.tick(draws).score >= v.score,
        v.tick(draws).camera_y <= v.camera_y,
{
}

/// After a tick the platforms stand strictly higher, one after the other.
pub proof fn lemma_tick_sorted(v: GameView, draws: Seq<u32>)
    requires
        v.wf(),
        v.within(TICK_LIMIT as int),
        draws.len() > 0,
    ensures
        forall|i: int, j: int|
            0 <= i < j < v.tick(draws).blocks.len() ==> v.tick(draws).blocks[i].y > v.tick(draws).blocks[j].y,
{
    lemma_tick_wf(v, draws);
    let bs = v.tick(draws).blocks;
    assert forall|i: int, j: int| 0 <= i < j < bs.len() implies bs[i].y > bs[j].y by {
        assert(bs[i].y - bs[j].y >= 200 * (j - i));
    }
}

/// After a tick of a running game, the number of platforms is bounded by the
/// viewport's height alone, however many ticks came before.
pub proof fn lemma_platform_count_bounded(v: GameView, draws: Seq<u32>)
    requires
        v.wf(),
        v.within(TICK_LIMIT as int),
        draws.len() > 0,
        v.state == GameState::Playing,
    ensures
        200 * (v.tick(draws).blocks.len() - 1) < 2 * v.height + LEAD_BOUND,
{
    lemma_tick_wf(v, draws);
    let r = v.tick(draws);
    if r.blocks.len() > 1 {
        assert(r.blocks[0].y - r.blocks[r.blocks.len() - 1].y >= 200 * (r.blocks.len() - 1));
    }
}

/// Stopping a direction that is not held changes nothing; so stopping
/// twice is stopping once.
pub proof fn lemma_stop_move_idempotent(v: GameView, d: Direction)
    ensures
        v.stopped(d).stopped(d) == v.stopped(d),
        (match d {
            Direction::Left => !v.player.is_moving_left,
            Direction::Right => !v.player.is_moving_right,
        }) ==> v.stopped(d) == v,
{
}

/// A jump before landing does nothing: jumping twice is jumping once.
pub proof fn lemma_no_double_jump(v: GameView)
    ensures
        v.jumped().jumped() == v.jumped(),
        v.player.is_jumping ==> v.jumped() == v,
{
}

/// Once the game is over, a tick changes nothing.
pub proof fn lemma_game_over_frozen(v: GameView, draws: Seq<u32>)
    requires
        v.state == GameState::GameOver,
    ensures
        v.tick(draws) == v,
{
}

/// Resizing moves nothing in the world, and the next frame paints the sky,
/// and the overlay of a finished game, over the new viewport.
pub proof fn lemma_resize_then_draw(v: GameView, width: u32, height: u32)
    ensures
        ({
            let r = v.resized(width, height);
            let f = r.frame();
            &&& r.player == v.player
            &&& r.blocks == v.blocks
            &&& r.camera_y == v.camera_y
            &&& f[0] == rect(0, 0, 2 * width, 2 * height, Color::Sky)
            &&& r.state == GameState::GameOver ==> f[f.len() - 4] == rect(0, 0, 2 * width, 2 * height, Color::Shade)
        }),
{
}

} // verus!
