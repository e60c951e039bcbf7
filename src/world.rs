use vstd::prelude::*;
use crate::entities::{Block, Player, BLOCK_HEIGHT, BLOCK_WIDTH, PLAYER_SIZE};

verus! {

/// Speed added to the downward velocity on every tick.
pub const GRAVITY: i64 = 1;

/// Horizontal speed while a direction is held.
pub const MOVE_SPEED: i64 = 10;

/// Upward speed given by a jump.
pub const JUMP_SPEED: i64 = 30;

/// Distance from the bottom of the viewport to the player's top at spawn.
pub const SPAWN_DEPTH: i64 = 140;

/// Vertical distance between a platform and the next one above it.
pub const BLOCK_SPACING: i64 = 240;

/// How far a generated platform may stand to either side of its predecessor.
pub const MAX_JUMP_DIST: i64 = 400;

/// Gap kept free between a generated platform and either side of the viewport.
pub const SCREEN_MARGIN: i64 = 100;

/// Platforms are generated until the top one is this far above the camera.
pub const LOOKAHEAD: i64 = 200;

/// Height climbed for each point of score.
pub const SCORE_STEP: i64 = 20;

/// The top platform never stands further than this above the camera.
pub const LEAD_BOUND: i64 = 2160;

/// Bound on every coordinate under which a tick is computed exactly.
pub const TICK_LIMIT: i64 = 0x100_0000_0000;

/// Bound on every coordinate under which a frame is computed exactly.
pub const DRAW_LIMIT: i64 = 0x1000_0000_0000_0000;

/// A random draw `d` stands for the fraction `d / DRAW_SCALE` of `[0, 1)`.
pub const DRAW_SCALE: u128 = 0x1_0000_0000;

#[derive(Clone, Copy, Debug, PartialEq, Eq, Structural)]
pub enum GameState {
    Playing,
    GameOver,
}

#[derive(Clone, Copy, Debug, PartialEq, Eq, Structural)]
pub enum Direction {
    Left,
    Right,
}

/// The whole world of one session.
pub struct Game {
    pub state: GameState,
    pub player: Player,
    /// The platforms, lowest first; each one placed above the one before.
    pub blocks: Vec<Block>,
    /// Viewport width in pixels.
    pub width: u32,
    /// Viewport height in pixels.
    pub height: u32,
    /// How far the view has scrolled: a point at `y` is drawn at `y - camera_y`.
    pub camera_y: i64,
    /// The best height reached so far, in points.
    pub score: i64,
}

/// The mathematical model of a `Game`.
pub struct GameView {
    pub state: GameState,
    pub player: Player,
    pub blocks: Seq<Block>,
    pub width: u32,
    pub height: u32,
    pub camera_y: int,
    pub score: int,
}

impl View for Game {
    type V = GameView;

    open spec fn view(&self) -> GameView {
        GameView {
            state: self.state,
            player: self.player,
            blocks: self.blocks@,
            width: self.width,
            height: self.height,
            camera_y: self.camera_y as int,
            score: self.score as int,
        }
    }
}

/// The `k`-th random draw, starting over at the first when all are used.
pub open spec fn draw_at(draws: Seq<u32>, k: int) -> u32 {
    draws[k % (draws.len() as int)]
}

/// The point at fraction `d / DRAW_SCALE` of `[lo, lo + span)`, rounded down.
pub open spec fn spec_pick(lo: int, span: int, d: u32) -> int {
    lo + (d as int * span) / (DRAW_SCALE as int)
}

/// The ground: the full width of the viewport, at its bottom.
pub open spec fn ground(w: int, h: int) -> Block {
    Block { x: 0, y: (2 * h - BLOCK_HEIGHT) as i64, width: (2 * w) as i64, height: BLOCK_HEIGHT }
}

/// The `i`-th platform of a new world, for `1 <= i`: anywhere across the viewport.
pub open spec fn scattered(w: int, h: int, i: int, d: u32) -> Block {
    let span = if 2 * w - BLOCK_WIDTH > 0 { 2 * w - BLOCK_WIDTH } else { 0 };
    Block {
        x: spec_pick(0, span, d) as i64,
        y: (2 * h - BLOCK_SPACING * i) as i64,
        width: BLOCK_WIDTH,
        height: BLOCK_HEIGHT,
    }
}

/// The platforms of a new world: the ground and nine above it.
pub open spec fn initial_blocks(w: int, h: int, draws: Seq<u32>) -> Seq<Block> {
    Seq::new(10, |i: int| if i == 0 { ground(w, h) } else { scattered(w, h, i, draw_at(draws, i - 1)) })
}

/// Horizontal velocity for the held directions; left wins over right.
pub open spec fn steer(p: Player) -> i64 {
    if p.is_moving_left {
        (-MOVE_SPEED) as i64
    } else if p.is_moving_right {
        MOVE_SPEED
    } else {
        0
    }
}

/// Steering, gravity, integration and the clamp to the side walls.
pub open spec fn move_player(p: Player, w: int) -> Player {
    let vx = steer(p);
    let vy = p.velocity_y + GRAVITY;
    let x0 = p.x + vx;
    let x1 = if x0 < 0 { 0 } else { x0 };
    let x2 = if x1 + p.width > 2 * w { 2 * w - p.width } else { x1 };
    Player { x: x2 as i64, y: (p.y + vy) as i64, velocity_x: vx, velocity_y: vy as i64, ..p }
}

/// The player, falling, overlaps `b` across and its bottom crossed `b`'s top this tick.
pub open spec fn lands_on(p: Player, b: Block) -> bool {
    &&& p.velocity_y > 0
    &&& p.x < b.x + b.width
    &&& p.x + p.width > b.x
    &&& p.y + p.height >= b.y
    &&& p.y + p.height <= b.y + p.velocity_y
}

pub open spec fn land(p: Player, b: Block) -> Player {
    if lands_on(p, b) {
        Player { y: (b.y - p.height) as i64, velocity_y: 0, is_jumping: false, ..p }
    } else {
        p
    }
}

/// The player after testing each platform in order.
pub open spec fn collide(p: Player, bs: Seq<Block>) -> Player
    decreases bs.len(),
{
    if bs.len() == 0 {
        p
    } else {
        land(collide(p, bs.drop_last()), bs.last())
    }
}

/// The camera moves up to keep the player in the lower half of the viewport.
pub open spec fn follow(cam: int, y: int, h: int) -> int {
    if y - cam < h {
        y - h
    } else {
        cam
    }
}

/// The best score so far, one point per `SCORE_STEP` climbed above the spawn.
pub open spec fn score_after(score: int, y: int, h: int) -> int {
    let c = (2 * h - SPAWN_DEPTH - y) / SCORE_STEP as int;
    if c > score {
        c
    } else {
        score
    }
}

/// The platform placed above `last`: within jumping distance of it and off the
/// viewport's edges, or centred where no such place exists.
pub open spec fn next_block(last: Block, w: int, d: u32) -> Block {
    let rel_lo = last.x - MAX_JUMP_DIST;
    let rel_hi = last.x + last.width + MAX_JUMP_DIST;
    let scr_lo = SCREEN_MARGIN as int;
    let scr_hi = 2 * w - BLOCK_WIDTH - SCREEN_MARGIN;
    let lo = if rel_lo > scr_lo { rel_lo } else { scr_lo };
    let hi = if rel_hi < scr_hi { rel_hi } else { scr_hi };
    let x = if lo < hi { spec_pick(lo, hi - lo, d) } else { 2 * (w / 2) - BLOCK_WIDTH / 2 };
    Block { x: x as i64, y: (last.y - BLOCK_SPACING) as i64, width: BLOCK_WIDTH, height: BLOCK_HEIGHT }
}

/// Platforms appended while the top one is less than `LOOKAHEAD` above the
/// camera; the `k`-th one appended takes draw `k`. (The bound on `y` keeps
/// the definition total; it holds of every world within `TICK_LIMIT`.)
pub open spec fn generate(bs: Seq<Block>, cam: int, w: int, draws: Seq<u32>, k: int) -> Seq<Block>
    decreases (if bs.len() > 0 && bs.last().y - cam + LOOKAHEAD > 0 { bs.last().y - cam + LOOKAHEAD } else { 0 }),
{
    if bs.len() > 0 && bs.last().y - cam > -LOOKAHEAD && bs.last().y >= i64::MIN + BLOCK_SPACING {
        generate(bs.push(next_block(bs.last(), w, draw_at(draws, k))), cam, w, draws, k + 1)
    } else {
        bs
    }
}

/// A platform stays while its top is above the bottom of the viewport.
pub open spec fn kept(b: Block, cam: int, h: int) -> bool {
    b.y - cam < 2 * h
}

pub open spec fn prune(bs: Seq<Block>, cam: int, h: int) -> Seq<Block> {
    bs.filter(|b: Block| kept(b, cam, h))
}

/// Each platform stands at least 200 per place above every earlier one.
pub open spec fn gapped(bs: Seq<Block>) -> bool {
    forall|i: int, j: int| 0 <= i < j < bs.len() ==> bs[i].y - bs[j].y >= 200 * (j - i)
}

pub open spec fn block_within(b: Block, bound: int) -> bool {
    &&& -bound <= b.x <= bound
    &&& -bound <= b.y <= bound
    &&& 0 <= b.width <= bound
}

impl GameView {
    /// The invariant kept by every operation.
    pub open spec fn wf(self) -> bool {
        &&& self.blocks.len() > 0
        &&& self.player.width == PLAYER_SIZE
        &&& self.player.height == PLAYER_SIZE
        &&& self.score >= 0
        &&& gapped(self.blocks)
        &&& self.blocks.last().y - self.camera_y >= -LEAD_BOUND
    }

    /// Every coordinate lies in `[-bound, bound]`.
    pub open spec fn within(self, bound: int) -> bool {
        &&& -bound <= self.camera_y <= bound
        &&& -bound <= self.player.x <= bound
        &&& -bound <= self.player.y <= bound
        &&& -bound <= self.player.velocity_y <= bound
        &&& forall|i: int| 0 <= i < self.blocks.len() ==> block_within(#[trigger] self.blocks[i], bound)
    }

    pub open spec fn spec_new(width: u32, height: u32, draws: Seq<u32>) -> GameView {
        GameView {
            state: GameState::Playing,
            player: Player::spec_new(2 * (width / 2) - PLAYER_SIZE / 2, 2 * height - SPAWN_DEPTH),
            blocks: initial_blocks(width as int, height as int, draws),
            width,
            height,
            camera_y: 0,
            score: 0,
        }
    }

    /// One physics tick; nothing moves once the game is over.
    pub open spec fn tick(self, draws: Seq<u32>) -> GameView {
        if self.state != GameState::Playing {
            self
        } else {
            let w = self.width as int;
            let h = self.height as int;
            let p = collide(move_player(self.player, w), self.blocks);
            let cam = follow(self.camera_y, p.y as int, h);
            GameView {
                state: if p.y - cam > 2 * h { GameState::GameOver } else { GameState::Playing },
                player: p,
                blocks: prune(generate(self.blocks, cam, w, draws, 0), cam, h),
                camera_y: cam,
                score: score_after(self.score, p.y as int, h),
                ..self
            }
        }
    }

    pub open spec fn resized(self, width: u32, height: u32) -> GameView {
        GameView { width, height, ..self }
    }

    pub open spec fn started(self, d: Direction) -> GameView {
        if self.state != GameState::Playing {
            self
        } else {
            match d {
                Direction::Left => GameView { player: Player { is_moving_left: true, ..self.player }, ..self },
                Direction::Right => GameView { player: Player { is_moving_right: true, ..self.player }, ..self },
            }
        }
    }

    pub open spec fn stopped(self, d: Direction) -> GameView {
        match d {
            Direction::Left => GameView { player: Player { is_moving_left: false, ..self.player }, ..self },
            Direction::Right => GameView { player: Player { is_moving_right: false, ..self.player }, ..self },
        }
    }

    /// A jump starts only while playing and not already in the air from one.
    pub open spec fn jumped(self) -> GameView {
        if self.state == GameState::Playing && !self.player.is_jumping {
            GameView {
                player: Player { velocity_y: (-JUMP_SPEED) as i64, is_jumping: true, ..self.player },
                ..self
            }
        } else {
            self
        }
    }
}

} // verus!
