use vstd::prelude::*;
use crate::entities::{Block, Player, BLOCK_HEIGHT, BLOCK_WIDTH, PLAYER_SIZE};
use crate::proofs::lemma_tick_wf;
use crate::world::{
    block_within, collide, gapped, generate, initial_blocks, kept,
    move_player, next_block, prune, spec_pick, Direction, Game, GameState, GameView, BLOCK_SPACING,
    DRAW_LIMIT, DRAW_SCALE, GRAVITY, JUMP_SPEED, LOOKAHEAD, MAX_JUMP_DIST, MOVE_SPEED,
    SCORE_STEP, SCREEN_MARGIN, SPAWN_DEPTH, TICK_LIMIT,
};

verus! {

/// Bound on the coordinates seen while a tick is computed.
const WORK_LIMIT: i64 = 0x1000_0000_0000;

/// Bound on the player's position and speed while a tick is computed.
const MID_LIMIT: i64 = 0x400_0000_0000;

/// `lo` plus the fraction `d / DRAW_SCALE` of `span`, rounded down.
fn pick(lo: i64, span: i64, d: u32) -> (r: i64)
    requires
        -WORK_LIMIT <= lo <= WORK_LIMIT,
        0 <= span <= WORK_LIMIT,
    ensures
        r == spec_pick(lo as int, span as int, d),
        lo <= r <= lo + span,
{
    proof {
        let di = d as int;
        let si = span as int;
        assert(di * si <= 0x1_0000_0000 * si) by (nonlinear_arith)
            requires
                0 <= di < 0x1_0000_0000,
                0 <= si,
        ;
        assert(0 <= di * si) by (nonlinear_arith)
            requires
                0 <= di,
                0 <= si,
        ;
        vstd::arithmetic::div_mod::lemma_div_is_ordered(di * si, 0x1_0000_0000 * si, 0x1_0000_0000);
        vstd::arithmetic::div_mod::lemma_div_by_multiple(si, 0x1_0000_0000);
        vstd::arithmetic::div_mod::lemma_div_pos_is_pos(di * si, 0x1_0000_0000);
    }
    let prod: u128 = (d as u128) * (span as u128);
    let off: i64 = (prod / DRAW_SCALE) as i64;
    lo + off
}

/// The platform to place above `last`.
fn place_next(last: Block, width: u32, d: u32) -> (r: Block)
    requires
        block_within(last, WORK_LIMIT as int),
    ensures
        r == next_block(last, width as int, d),
        -BLOCK_WIDTH <= r.x <= 2 * width,
        r.y == last.y - BLOCK_SPACING,
        r.width == BLOCK_WIDTH,
{
    let w = width as i64;
    let rel_lo = last.x - MAX_JUMP_DIST;
    let rel_hi = last.x + last.width + MAX_JUMP_DIST;
    let scr_lo = SCREEN_MARGIN;
    let scr_hi = 2 * w - BLOCK_WIDTH - SCREEN_MARGIN;
    let lo = if rel_lo > scr_lo { rel_lo } else { scr_lo };
    let hi = if rel_hi < scr_hi { rel_hi } else { scr_hi };
    let x = if lo < hi {
        pick(lo, hi - lo, d)
    } else {
        2 * ((width / 2) as i64) - BLOCK_WIDTH / 2
    };
    Block::new(x, last.y - BLOCK_SPACING, BLOCK_WIDTH, BLOCK_HEIGHT)
}

/// The player after testing each platform of `bs` in order.
fn collide_all(p: Player, bs: &Vec<Block>) -> (r: Player)
    requires
        p.width == PLAYER_SIZE,
        p.height == PLAYER_SIZE,
        -WORK_LIMIT <= p.x <= WORK_LIMIT,
        -MID_LIMIT <= p.y <= MID_LIMIT,
        -MID_LIMIT <= p.velocity_y <= MID_LIMIT,
        forall|i: int| 0 <= i < bs@.len() ==> block_within(#[trigger] bs@[i], TICK_LIMIT as int),
    ensures
        r == collide(p, bs@),
        r.x == p.x,
        r.width == p.width,
        r.height == p.height,
        -MID_LIMIT <= r.y <= MID_LIMIT,
        -MID_LIMIT <= r.velocity_y <= MID_LIMIT,
{
    let mut cur = p;
    let mut i: usize = 0;
    while i < bs.len()
        invariant
            0 <= i <= bs@.len(),
            cur == collide(p, bs@.take(i as int)),
            cur.x == p.x,
            -WORK_LIMIT <= p.x <= WORK_LIMIT,
            p.width == PLAYER_SIZE,
            p.height == PLAYER_SIZE,
            cur.width == p.width,
            cur.height == p.height,
            -MID_LIMIT <= cur.y <= MID_LIMIT,
            -MID_LIMIT <= cur.velocity_y <= MID_LIMIT,
            forall|j: int| 0 <= j < bs@.len() ==> block_within(#[trigger] bs@[j], TICK_LIMIT as int),
        decreases bs@.len() - i,
    {
        let b = bs[i];
        assert(block_within(bs@[i as int], TICK_LIMIT as int));
        if cur.velocity_y > 0 && cur.x < b.x + b.width && cur.x + cur.width > b.x && cur.y
            + cur.height >= b.y && cur.y + cur.height <= b.y + cur.velocity_y {
            cur.y = b.y - cur.height;
            cur.velocity_y = 0;
            cur.is_jumping = false;
        }
        proof {
            assert(bs@.take(i as int + 1).drop_last() =~= bs@.take(i as int));
        }
        i += 1;
    }
    proof {
        assert(bs@.take(bs@.len() as int) =~= bs@);
    }
    cur
}

/// Appends platforms above the top one while it is less than `LOOKAHEAD`
/// above the camera.
fn generate_blocks(bs: &mut Vec<Block>, cam: i64, width: u32, draws: &Vec<u32>)
    requires
        old(bs)@.len() > 0,
        gapped(old(bs)@),
        forall|i: int| 0 <= i < old(bs)@.len() ==> block_within(#[trigger] old(bs)@[i], TICK_LIMIT as int),
        -2 * MID_LIMIT <= cam <= 2 * MID_LIMIT,
        draws@.len() > 0,
    ensures
        final(bs)@ == generate(old(bs)@, cam as int, width as int, draws@, 0),
        final(bs)@.len() > 0,
        gapped(final(bs)@),
        forall|i: int| 0 <= i < final(bs)@.len() ==> block_within(#[trigger] final(bs)@[i], WORK_LIMIT as int),
        final(bs)@.last().y - cam <= -LOOKAHEAD,
        final(bs)@ == old(bs)@ || final(bs)@.last().y - cam > -(LOOKAHEAD + BLOCK_SPACING),
{
    let ghost target = generate(old(bs)@, cam as int, width as int, draws@, 0);
    let ghost y0 = old(bs)@.last().y;
    let mut k: u64 = 0;
    while bs[bs.len() - 1].y - cam > -LOOKAHEAD
        invariant
            bs@.len() > 0,
            generate(bs@, cam as int, width as int, draws@, k as int) == target,
            gapped(bs@),
            forall|i: int| 0 <= i < bs@.len() ==> block_within(#[trigger] bs@[i], WORK_LIMIT as int),
            bs@.last().y == y0 - BLOCK_SPACING * k,
            -TICK_LIMIT <= y0 <= TICK_LIMIT,
            -2 * MID_LIMIT <= cam <= 2 * MID_LIMIT,
            draws@.len() > 0,
            k == 0 ==> bs@ == old(bs)@,
            k > 0 ==> bs@.last().y - cam > -(LOOKAHEAD + BLOCK_SPACING),
        decreases (if bs@.last().y - cam + LOOKAHEAD > 0 { bs@.last().y - cam + LOOKAHEAD } else { 0 }),
    {
        let last = bs[bs.len() - 1];
        assert(block_within(bs@[bs@.len() - 1], WORK_LIMIT as int));
        let d = draws[(k % (draws.len() as u64)) as usize];
        let nb = place_next(last, width, d);
        let ghost prev = bs@;
        assert(last == prev.last());
        assert(k < 0x1_0000_0000_0000);
        bs.push(nb);
        assert(bs@.last() == nb);
        proof {
            assert forall|i: int, j: int| 0 <= i < j < bs@.len() implies bs@[i].y - bs@[j].y >= 200 * (j - i) by {
                if j == bs@.len() - 1 && i < prev.len() - 1 {
                    assert(prev[i].y - prev[prev.len() - 1].y >= 200 * (prev.len() - 1 - i));
                }
            }
        }
        k += 1;
    }
}

/// Keeps the platforms whose top is above the bottom of the viewport.
fn prune_blocks(bs: &Vec<Block>, cam: i64, height: u32) -> (r: Vec<Block>)
    requires
        forall|i: int| 0 <= i < bs@.len() ==> block_within(#[trigger] bs@[i], WORK_LIMIT as int),
        -WORK_LIMIT <= cam <= WORK_LIMIT,
    ensures
        r@ == prune(bs@, cam as int, height as int),
{
    let h = height as i64;
    let mut r: Vec<Block> = Vec::new();
    let mut i: usize = 0;
    while i < bs.len()
        invariant
            0 <= i <= bs@.len(),
            r@ == prune(bs@.take(i as int), cam as int, height as int),
            forall|j: int| 0 <= j < bs@.len() ==> block_within(#[trigger] bs@[j], WORK_LIMIT as int),
            -WORK_LIMIT <= cam <= WORK_LIMIT,
            h == height as i64,
        decreases bs@.len() - i,
    {
        let b = bs[i];
        assert(block_within(bs@[i as int], WORK_LIMIT as int));
        let ghost before = r@;
        if b.y - cam < 2 * h {
            r.push(b);
        }
        proof {
            reveal(Seq::filter);
            let t = bs@.take(i as int + 1);
            assert(t.drop_last() =~= bs@.take(i as int));
            assert(t.last() == b);
            assert(prune(t, cam as int, height as int) == (if kept(b, cam as int, height as int) {
                before.push(b)
            } else {
                before
            }));
        }
        i += 1;
    }
    proof {
        assert(bs@.take(bs@.len() as int) =~= bs@);
    }
    r
}

impl Game {
    /// A new world for a viewport of `width` by `height` pixels: the ground,
    /// nine platforms above it placed by successive draws, and the player
    /// standing on the ground in the middle.
    pub fn new(width: u32, height: u32, draws: &Vec<u32>) -> (r: Game)
        requires
            draws@.len() > 0,
        ensures
            r@ == GameView::spec_new(width, height, draws@),
            r@.wf(),
            r@.within(TICK_LIMIT as int),
    {
        let w = width as i64;
        let h = height as i64;
        let ghost target = initial_blocks(width as int, height as int, draws@);
        let mut blocks: Vec<Block> = Vec::new();
        blocks.push(Block::new(0, 2 * h - BLOCK_HEIGHT, 2 * w, BLOCK_HEIGHT));
        let span: i64 = if 2 * w - BLOCK_WIDTH > 0 { 2 * w - BLOCK_WIDTH } else { 0 };
        let mut i: usize = 1;
        while i < 10
            invariant
                1 <= i <= 10,
                blocks@.len() == i,
                forall|j: int| 0 <= j < i ==> blocks@[j] == #[trigger] target[j],
                forall|j: int| 0 <= j < i ==> block_within(#[trigger] blocks@[j], TICK_LIMIT as int),
                target == initial_blocks(width as int, height as int, draws@),
                draws@.len() > 0,
                span == (if 2 * w - BLOCK_WIDTH > 0 { 2 * w - BLOCK_WIDTH } else { 0 }),
                w == width as i64,
                h == height as i64,
            decreases 10 - i,
        {
            let d = draws[(i - 1) % draws.len()];
            let x = pick(0, span, d);
            blocks.push(Block::new(x, 2 * h - BLOCK_SPACING * (i as i64), BLOCK_WIDTH, BLOCK_HEIGHT));
            assert(blocks@[i as int] == target[i as int]);
            i += 1;
        }
        assert(blocks@ =~= target);
        let g = Game {
            state: GameState::Playing,
            player: Player::new(2 * ((width / 2) as i64) - PLAYER_SIZE / 2, 2 * h - SPAWN_DEPTH),
            blocks,
            width,
            height,
            camera_y: 0,
            score: 0,
        };
        assert(g@.blocks.last() == target[9]);
        g
    }

    /// Sets the viewport; nothing in the world moves.
    pub fn resize(&mut self, width: u32, height: u32)
        ensures
            final(self)@ == old(self)@.resized(width, height),
    {
        self.width = width;
        self.height = height;
    }

    /// Starts holding `direction`; ignored once the game is over.
    pub fn start_move(&mut self, direction: Direction)
        ensures
            final(self)@ == old(self)@.started(direction),
    {
        if self.state != GameState::Playing {
            return;
        }
        match direction {
            Direction::Left => self.player.is_moving_left = true,
            Direction::Right => self.player.is_moving_right = true,
        }
    }

    /// Stops holding `direction`, whatever the state.
    pub fn stop_move(&mut self, direction: Direction)
        ensures
            final(self)@ == old(self)@.stopped(direction),
    {
        match direction {
            Direction::Left => self.player.is_moving_left = false,
            Direction::Right => self.player.is_moving_right = false,
        }
    }

    /// Starts a jump, only while playing and not already jumping.
    pub fn jump(&mut self)
        ensures
            final(self)@ == old(self)@.jumped(),
    {
        if self.state == GameState::Playing && !self.player.is_jumping {
            self.player.velocity_y = -JUMP_SPEED;
            self.player.is_jumping = true;
        }
    }

    /// Whether every coordinate lies within `TICK_LIMIT`, so that `update`
    /// may be called.
    pub fn within_limits(&self) -> (r: bool)
        ensures
            r == self@.within(TICK_LIMIT as int),
    {
        let c = self.camera_y;
        let p = self.player;
        if !(-TICK_LIMIT <= c && c <= TICK_LIMIT && -TICK_LIMIT <= p.x && p.x <= TICK_LIMIT
            && -TICK_LIMIT <= p.y && p.y <= TICK_LIMIT && -TICK_LIMIT <= p.velocity_y
            && p.velocity_y <= TICK_LIMIT) {
            return false;
        }
        let mut i: usize = 0;
        while i < self.blocks.len()
            invariant
                0 <= i <= self.blocks@.len(),
                forall|j: int| 0 <= j < i ==> block_within(#[trigger] self.blocks@[j], TICK_LIMIT as int),
            decreases self.blocks@.len() - i,
        {
            let b = self.blocks[i];
            if !(-TICK_LIMIT <= b.x && b.x <= TICK_LIMIT && -TICK_LIMIT <= b.y && b.y <= TICK_LIMIT
                && 0 <= b.width && b.width <= TICK_LIMIT) {
                assert(!block_within(self@.blocks[i as int], TICK_LIMIT as int));
                return false;
            }
            i += 1;
        }
        true
    }

    /// One physics tick. The `k`-th platform generated in this tick is
    /// placed by draw `k`, starting over at the first draw when all are used.
    pub fn update(&mut self, draws: &Vec<u32>)
        requires
            old(self)@.wf(),
            old(self)@.within(TICK_LIMIT as int),
            draws@.len() > 0,
        ensures
            final(self)@ == old(self)@.tick(draws@),
            final(self)@.wf(),
            final(self)@.within(DRAW_LIMIT as int),
    {
        proof {
            lemma_tick_wf(self@, draws@);
        }
        if self.state != GameState::Playing {
            return;
        }
        let ghost v = self@;
        let w = self.width as i64;
        let h = self.height as i64;
        // steering, gravity, integration, side walls
        let mut p = self.player;
        p.velocity_x = if p.is_moving_left {
            -MOVE_SPEED
        } else if p.is_moving_right {
            MOVE_SPEED
        } else {
            0
        };
        p.velocity_y = p.velocity_y + GRAVITY;
        p.x = p.x + p.velocity_x;
        p.y = p.y + p.velocity_y;
        if p.x < 0 {
            p.x = 0;
        }
        if p.x + p.width > 2 * w {
            p.x = 2 * w - p.width;
        }
        assert(p == move_player(v.player, w as int));
        let p = collide_all(p, &self.blocks);
        self.player = p;
        // camera, end of the game, score
        if p.y - self.camera_y < h {
            self.camera_y = p.y - h;
        }
        if p.y - self.camera_y > 2 * h {
            self.state = GameState::GameOver;
        }
        let climbed = 2 * h - SPAWN_DEPTH - p.y;
        if climbed >= 0 {
            let c = climbed / SCORE_STEP;
            if c > self.score {
                self.score = c;
            }
        }
        // platforms ahead, then behind
        generate_blocks(&mut self.blocks, self.camera_y, self.width, draws);
        self.blocks = prune_blocks(&self.blocks, self.camera_y, self.height);
        proof {
            let g = generate(v.blocks, self.camera_y as int, w as int, draws@, 0);
            let k = crate::proofs::lemma_prune_suffix(g, self.camera_y as int, h as int);
            assert forall|i: int| 0 <= i < self.blocks@.len() implies block_within(
                #[trigger] self.blocks@[i],
                DRAW_LIMIT as int,
            ) by {
                assert(self.blocks@[i] == g[i + k]);
                assert(block_within(g[i + k], WORK_LIMIT as int));
            }
        }
    }
}

} // verus!
