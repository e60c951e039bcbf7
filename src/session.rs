use vstd::prelude::*;
use crate::world::{Direction, Game, GameState, GameView};

verus! {

/// Whether `a` and `b` hold the same characters.
pub fn same_text(a: &str, b: &str) -> (r: bool)
    ensures
        r == (a@ == b@),
{
    let n = a.unicode_len();
    if n != b.unicode_len() {
        return false;
    }
    let mut i: usize = 0;
    while i < n
        invariant
            0 <= i <= n,
            n == a@.len(),
            n == b@.len(),
            a@.take(i as int) == b@.take(i as int),
        decreases n - i,
    {
        if a.get_char(i) != b.get_char(i) {
            return false;
        }
        assert(a@.take(i as int + 1) =~= a@.take(i as int).push(a@[i as int]));
        assert(b@.take(i as int + 1) =~= b@.take(i as int).push(b@[i as int]));
        i += 1;
    }
    assert(a@ =~= a@.take(n as int));
    assert(b@ =~= b@.take(n as int));
    true
}

/// The direction that a name stands for: "left" or "right".
pub open spec fn spec_direction_of(name: Seq<char>) -> Option<Direction> {
    if name == "left"@ {
        Some(Direction::Left)
    } else if name == "right"@ {
        Some(Direction::Right)
    } else {
        None
    }
}

pub fn direction_of(name: &str) -> (r: Option<Direction>)
    ensures
        r == spec_direction_of(name@),
{
    if same_text(name, "left") {
        Some(Direction::Left)
    } else if same_text(name, "right") {
        Some(Direction::Right)
    } else {
        None
    }
}

/// The world after a key goes down: the arrows steer, space and the up
/// arrow jump, other keys do nothing.
pub open spec fn key_down(v: GameView, key: Seq<char>) -> GameView {
    if key == "ArrowLeft"@ {
        v.started(Direction::Left)
    } else if key == "ArrowRight"@ {
        v.started(Direction::Right)
    } else if key == " "@ || key == "ArrowUp"@ {
        v.jumped()
    } else {
        v
    }
}

/// The world after a key comes up: the arrows stop steering.
pub open spec fn key_up(v: GameView, key: Seq<char>) -> GameView {
    if key == "ArrowLeft"@ {
        v.stopped(Direction::Left)
    } else if key == "ArrowRight"@ {
        v.stopped(Direction::Right)
    } else {
        v
    }
}

/// Whether `f` holds between the session's world before and after, with no
/// world before and after where there was none.
pub open spec fn session_step(before: Option<Game>, after: Option<Game>, f: spec_fn(GameView) -> GameView) -> bool {
    match before {
        Some(g) => after.is_some() && after.unwrap()@ == f(g@),
        None => after.is_none(),
    }
}

/// Sets the viewport of the session's world, if there is one.
pub fn resize(game: &mut Option<Game>, width: u32, height: u32)
    ensures
        session_step(*old(game), *final(game), |v: GameView| v.resized(width, height)),
{
    if let Some(g) = game {
        g.resize(width, height);
    }
}

/// Starts holding the named direction; an unknown name does nothing.
pub fn start_move(game: &mut Option<Game>, direction: &str)
    ensures
        session_step(
            *old(game),
            *final(game),
            |v: GameView|
                match spec_direction_of(direction@) {
                    Some(d) => v.started(d),
                    None => v,
                },
        ),
{
    if let Some(g) = game {
        if let Some(d) = direction_of(direction) {
            g.start_move(d);
        }
    }
}

/// Stops holding the named direction; an unknown name does nothing.
pub fn stop_move(game: &mut Option<Game>, direction: &str)
    ensures
        session_step(
            *old(game),
            *final(game),
            |v: GameView|
                match spec_direction_of(direction@) {
                    Some(d) => v.stopped(d),
                    None => v,
                },
        ),
{
    if let Some(g) = game {
        if let Some(d) = direction_of(direction) {
            g.stop_move(d);
        }
    }
}

pub fn jump(game: &mut Option<Game>)
    ensures
        session_step(*old(game), *final(game), |v: GameView| v.jumped()),
{
    if let Some(g) = game {
        g.jump();
    }
}

/// Handles a key going down, named as the browser names it.
pub fn handle_key_down(game: &mut Option<Game>, key: &str)
    ensures
        session_step(*old(game), *final(game), |v: GameView| key_down(v, key@)),
{
    if let Some(g) = game {
        if same_text(key, "ArrowLeft") {
            g.start_move(Direction::Left);
        } else if same_text(key, "ArrowRight") {
            g.start_move(Direction::Right);
        } else if same_text(key, " ") || same_text(key, "ArrowUp") {
            g.jump();
        }
    }
}

/// Handles a key coming up, named as the browser names it.
pub fn handle_key_up(game: &mut Option<Game>, key: &str)
    ensures
        session_step(*old(game), *final(game), |v: GameView| key_up(v, key@)),
{
    if let Some(g) = game {
        if same_text(key, "ArrowLeft") {
            g.stop_move(Direction::Left);
        } else if same_text(key, "ArrowRight") {
            g.stop_move(Direction::Right);
        }
    }
}

/// A click restarts a finished game with a new world of the same viewport;
/// otherwise it does nothing.
pub fn handle_click(game: &mut Option<Game>, draws: &Vec<u32>)
    requires
        draws@.len() > 0,
    ensures
        session_step(
            *old(game),
            *final(game),
            |v: GameView|
                if v.state == GameState::GameOver {
                    GameView::spec_new(v.width, v.height, draws@)
                } else {
                    v
                },
        ),
{
    if let Some(g) = game {
        if g.state == GameState::GameOver {
            *g = Game::new(g.width, g.height, draws);
        }
    }
}

} // verus!
