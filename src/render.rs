use vstd::prelude::*;
use crate::entities::Block;
use crate::world::{Game, GameState, GameView, DRAW_LIMIT};

verus! {

#[derive(Clone, Copy, Debug, PartialEq, Eq, Structural)]
pub enum Color {
    /// The sky behind everything.
    Sky,
    /// The player.
    Green,
    /// Platforms.
    Brown,
    /// The running score.
    Black,
    /// The half-transparent dark panel over a finished game.
    Shade,
    /// Text on that panel.
    White,
}

#[derive(Clone, Copy, Debug, PartialEq, Eq, Structural)]
pub enum Align {
    Start,
    Center,
}

/// What a line of text says.
#[derive(Clone, Copy, Debug, PartialEq, Eq, Structural)]
pub enum Label {
    /// "Score: n"
    Score(i64),
    /// "Game Over"
    GameOver,
    /// "Final Score: n"
    FinalScore(i64),
    /// "Click to Restart"
    Restart,
}

/// One drawing primitive, in half-pixels of the viewport.
#[derive(Clone, Copy, Debug, PartialEq, Eq, Structural)]
pub enum DrawOp {
    Rect { x: i64, y: i64, width: i64, height: i64, color: Color },
    Text { label: Label, x: i64, y: i64, size: i64, align: Align, color: Color },
}

pub open spec fn rect(x: int, y: int, width: int, height: int, color: Color) -> DrawOp {
    DrawOp::Rect { x: x as i64, y: y as i64, width: width as i64, height: height as i64, color }
}

pub open spec fn text(label: Label, x: int, y: int, size: int, align: Align, color: Color) -> DrawOp {
    DrawOp::Text { label, x: x as i64, y: y as i64, size: size as i64, align, color }
}

/// A platform, shifted by the camera.
pub open spec fn block_op(b: Block, cam: int) -> DrawOp {
    rect(b.x as int, b.y - cam, b.width as int, b.height as int, Color::Brown)
}

impl GameView {
    /// The panel and texts drawn over a finished game.
    pub open spec fn overlay(self) -> Seq<DrawOp> {
        let w = self.width as int;
        let h = self.height as int;
        seq![
            rect(0, 0, 2 * w, 2 * h, Color::Shade),
            text(Label::GameOver, w, h - 80, 120, Align::Center, Color::White),
            text(Label::FinalScore(self.score as i64), w, h + 40, 60, Align::Center, Color::White),
            text(Label::Restart, w, h + 140, 60, Align::Center, Color::White),
        ]
    }

    /// One frame: the sky, the platforms, the player and the score, and the
    /// overlay once the game is over.
    pub open spec fn frame(self) -> Seq<DrawOp> {
        let cam = self.camera_y;
        let p = self.player;
        let head = seq![rect(0, 0, 2 * self.width, 2 * self.height, Color::Sky)];
        let blocks = self.blocks.map_values(|b: Block| block_op(b, cam));
        let tail = seq![
            rect(p.x as int, p.y - cam, p.width as int, p.height as int, Color::Green),
            text(Label::Score(self.score as i64), 20, 60, 48, Align::Start, Color::Black),
        ];
        let over = if self.state == GameState::GameOver { self.overlay() } else { Seq::empty() };
        head + blocks + tail + over
    }
}

impl Game {
    /// The drawing primitives of one frame.
    pub fn draw(&self) -> (r: Vec<DrawOp>)
        requires
            self@.within(DRAW_LIMIT as int),
            self.player.width <= DRAW_LIMIT,
            self.player.height <= DRAW_LIMIT,
            0 <= self.player.width,
            0 <= self.player.height,
        ensures
            r@ == self@.frame(),
    {
        let w = self.width as i64;
        let h = self.height as i64;
        let cam = self.camera_y;
        let mut ops: Vec<DrawOp> = Vec::new();
        ops.push(DrawOp::Rect { x: 0, y: 0, width: 2 * w, height: 2 * h, color: Color::Sky });
        let ghost head = ops@;
        let mut i: usize = 0;
        while i < self.blocks.len()
            invariant
                0 <= i <= self.blocks@.len(),
                ops@ == head + self.blocks@.take(i as int).map_values(|b: Block| block_op(b, cam as int)),
                self@.within(DRAW_LIMIT as int),
                cam == self.camera_y,
            decreases self.blocks@.len() - i,
        {
            let b = self.blocks[i];
            assert(crate::world::block_within(self@.blocks[i as int], DRAW_LIMIT as int));
            ops.push(DrawOp::Rect { x: b.x, y: b.y - cam, width: b.width, height: b.height, color: Color::Brown });
            assert(self.blocks@.take(i as int + 1) =~= self.blocks@.take(i as int).push(b));
            i += 1;
        }
        assert(self.blocks@.take(self.blocks@.len() as int) =~= self.blocks@);
        let p = self.player;
        ops.push(DrawOp::Rect { x: p.x, y: p.y - cam, width: p.width, height: p.height, color: Color::Green });
        ops.push(DrawOp::Text { label: Label::Score(self.score), x: 20, y: 60, size: 48, align: Align::Start, color: Color::Black });
        if self.state == GameState::GameOver {
            ops.push(DrawOp::Rect { x: 0, y: 0, width: 2 * w, height: 2 * h, color: Color::Shade });
            ops.push(DrawOp::Text { label: Label::GameOver, x: w, y: h - 80, size: 120, align: Align::Center, color: Color::White });
            ops.push(DrawOp::Text { label: Label::FinalScore(self.score), x: w, y: h + 40, size: 60, align: Align::Center, color: Color::White });
            ops.push(DrawOp::Text { label: Label::Restart, x: w, y: h + 140, size: 60, align: Align::Center, color: Color::White });
        }
        assert(ops@ =~= self@.frame());
        ops
    }
}

} // verus!
