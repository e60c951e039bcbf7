use platformer::{
    direction_of, handle_click, handle_key_down, handle_key_up, jump, resize, same_text,
    start_move, stop_move, Align, Block, Color, Direction, DrawOp, Game, GameState, Label,
};

const HALF: u32 = 0x8000_0000;

fn fresh() -> Game {
    Game::new(800, 600, &vec![0u32])
}

fn assert_sorted(g: &Game) {
    for i in 1..g.blocks.len() {
        assert!(g.blocks[i - 1].y > g.blocks[i].y);
    }
}

#[test]
fn new_world_layout() {
    let g = fresh();
    assert_eq!(g.state, GameState::Playing);
    assert_eq!(g.blocks.len(), 10);
    assert_eq!(g.blocks[0], Block { x: 0, y: 1160, width: 1600, height: 40 });
    for i in 1..10 {
        assert_eq!(g.blocks[i], Block { x: 0, y: 1200 - 240 * i as i64, width: 200, height: 40 });
    }
    assert_eq!(g.player.x, 750);
    assert_eq!(g.player.y, 1060);
    assert_eq!(g.player.width, 100);
    assert_eq!(g.player.height, 100);
    assert_eq!(g.camera_y, 0);
    assert_eq!(g.score, 0);
}

#[test]
fn initial_platforms_follow_the_draws() {
    let g = Game::new(800, 600, &vec![HALF, 0]);
    assert_eq!(g.blocks[1].x, 700);
    assert_eq!(g.blocks[2].x, 0);
    assert_eq!(g.blocks[3].x, 700);
    let narrow = Game::new(80, 600, &vec![u32::MAX]);
    assert_eq!(narrow.blocks[5].x, 0);
}

#[test]
fn jump_once_then_no_double_jump() {
    let mut g = fresh();
    g.jump();
    assert_eq!(g.player.velocity_y, -30);
    assert!(g.player.is_jumping);
    g.update(&vec![0]);
    let vy = g.player.velocity_y;
    assert_eq!(vy, -29);
    g.jump();
    assert_eq!(g.player.velocity_y, vy);
}

#[test]
fn resting_on_ground_tick() {
    let mut g = fresh();
    g.update(&vec![0]);
    assert_eq!(g.player.velocity_y, 0);
    assert_eq!(g.player.y, 1160 - 100);
    assert!(!g.player.is_jumping);
    assert_eq!(g.camera_y, 0);
    assert_eq!(g.score, 0);
    assert_eq!(g.blocks.len(), 10);
}

#[test]
fn steering_and_walls() {
    let mut g = fresh();
    g.start_move(Direction::Left);
    g.start_move(Direction::Right);
    g.update(&vec![0]);
    assert_eq!(g.player.velocity_x, -10);
    assert_eq!(g.player.x, 740);
    g.stop_move(Direction::Left);
    g.update(&vec![0]);
    assert_eq!(g.player.velocity_x, 10);
    assert_eq!(g.player.x, 750);
    g.player.x = 1495;
    g.update(&vec![0]);
    assert_eq!(g.player.x, 1500);
    g.stop_move(Direction::Right);
    g.start_move(Direction::Left);
    g.player.x = 5;
    g.update(&vec![0]);
    assert_eq!(g.player.x, 0);
}

#[test]
fn game_over_freezes_the_world() {
    let mut g = fresh();
    g.player.y = 3000;
    g.update(&vec![0]);
    assert_eq!(g.state, GameState::GameOver);
    assert_eq!(g.player.y, 3001);
    let player = g.player;
    let blocks = g.blocks.clone();
    for _ in 0..5 {
        g.update(&vec![0]);
    }
    assert_eq!(g.player, player);
    assert_eq!(g.blocks, blocks);
    g.start_move(Direction::Left);
    assert!(!g.player.is_moving_left);
    g.jump();
    assert_eq!(g.player, player);
}

#[test]
fn click_restarts_a_finished_game() {
    let mut g = fresh();
    g.player.y = -3000;
    g.update(&vec![0]);
    assert!(g.score > 0);
    assert!(g.camera_y < 0);
    g.player.y = g.camera_y + 5000;
    g.update(&vec![0]);
    assert_eq!(g.state, GameState::GameOver);
    let mut s = Some(g);
    handle_click(&mut s, &vec![0]);
    let g = s.unwrap();
    assert_eq!(g.state, GameState::Playing);
    assert_eq!(g.score, 0);
    assert_eq!(g.camera_y, 0);
    assert_eq!(g.blocks.len(), 10);
    assert_eq!(g.player.y, 1060);
}

#[test]
fn click_while_playing_does_nothing() {
    let mut s = Some(fresh());
    s.as_mut().unwrap().player.x = 3;
    handle_click(&mut s, &vec![0]);
    assert_eq!(s.unwrap().player.x, 3);
    let mut none: Option<Game> = None;
    handle_click(&mut none, &vec![0]);
    assert!(none.is_none());
}

#[test]
fn stop_move_is_idempotent() {
    let mut g = fresh();
    let before = g.player;
    g.stop_move(Direction::Left);
    assert_eq!(g.player, before);
    g.start_move(Direction::Right);
    g.stop_move(Direction::Right);
    let once = g.player;
    g.stop_move(Direction::Right);
    assert_eq!(g.player, once);
    assert_eq!(once, before);
}

#[test]
fn climbing_generates_and_prunes() {
    let mut g = fresh();
    g.player.y = -1000;
    g.update(&vec![0]);
    assert_eq!(g.camera_y, -1599);
    assert_eq!(g.score, (1200 - 140 + 999) / 20);
    let ys: Vec<i64> = g.blocks.iter().map(|b| b.y).collect();
    assert_eq!(ys, vec![-480, -720, -960, -1200, -1440, -1680, -1920]);
    let xs: Vec<i64> = g.blocks.iter().map(|b| b.x).collect();
    assert_eq!(xs, vec![0, 0, 0, 100, 100, 100, 100]);
}

#[test]
fn generated_platform_uses_reachable_band() {
    let mut g = fresh();
    g.player.y = -1000;
    g.update(&vec![HALF]);
    // band [100, 600) from a platform at 0, then [100, 950) from 350, ...
    assert_eq!(g.blocks[3].x, 350);
    assert_eq!(g.blocks[4].x, 100 + (850 / 2));
}

#[test]
fn generated_platform_falls_back_to_center() {
    let mut g = Game::new(200, 600, &vec![0]);
    g.player.y = -1000;
    g.update(&vec![0]);
    let last = g.blocks[g.blocks.len() - 1];
    assert_eq!(last.x, 100);
    assert_eq!(last.width, 200);
}

#[test]
fn score_and_camera_never_go_back() {
    let mut g = fresh();
    let mut score = g.score;
    let mut cam = g.camera_y;
    for step in 0..400i64 {
        if step % 50 == 0 {
            g.player.y = g.camera_y + 300;
        }
        if !g.player.is_jumping {
            g.jump();
        }
        if g.within_limits() {
            g.update(&vec![7, 123456789, u32::MAX]);
        }
        assert!(g.score >= score);
        assert!(g.camera_y <= cam);
        score = g.score;
        cam = g.camera_y;
    }
}

#[test]
fn platforms_stay_sorted_and_bounded() {
    let mut g = fresh();
    for step in 1..200i64 {
        g.player.y = -700 * step;
        g.player.velocity_y = 0;
        g.update(&vec![HALF, 99, u32::MAX]);
        assert_eq!(g.state, GameState::Playing);
        assert_sorted(&g);
        assert!(200 * (g.blocks.len() as i64 - 1) < 2 * 600 + 2160);
    }
}

#[test]
fn resize_then_draw_uses_new_viewport() {
    let mut g = fresh();
    let player = g.player;
    let blocks = g.blocks.clone();
    g.resize(1024, 768);
    assert_eq!(g.player, player);
    assert_eq!(g.blocks, blocks);
    let ops = g.draw();
    assert_eq!(ops[0], DrawOp::Rect { x: 0, y: 0, width: 2048, height: 1536, color: Color::Sky });
    assert_eq!(ops.len(), 1 + 10 + 2);
    g.state = GameState::GameOver;
    let ops = g.draw();
    assert_eq!(ops.len(), 1 + 10 + 2 + 4);
    assert_eq!(ops[13], DrawOp::Rect { x: 0, y: 0, width: 2048, height: 1536, color: Color::Shade });
    assert_eq!(
        ops[14],
        DrawOp::Text { label: Label::GameOver, x: 1024, y: 768 - 80, size: 120, align: Align::Center, color: Color::White }
    );
}

#[test]
fn draw_shifts_by_camera() {
    let mut g = fresh();
    g.camera_y = -100;
    g.score = 7;
    let ops = g.draw();
    assert_eq!(ops[1], DrawOp::Rect { x: 0, y: 1260, width: 1600, height: 40, color: Color::Brown });
    assert_eq!(ops[11], DrawOp::Rect { x: 750, y: 1160, width: 100, height: 100, color: Color::Green });
    assert_eq!(
        ops[12],
        DrawOp::Text { label: Label::Score(7), x: 20, y: 60, size: 48, align: Align::Start, color: Color::Black }
    );
}

#[test]
fn keys_map_to_intents() {
    let mut s = Some(fresh());
    handle_key_down(&mut s, "ArrowLeft");
    assert!(s.as_ref().unwrap().player.is_moving_left);
    handle_key_down(&mut s, "ArrowRight");
    assert!(s.as_ref().unwrap().player.is_moving_right);
    handle_key_up(&mut s, "ArrowLeft");
    assert!(!s.as_ref().unwrap().player.is_moving_left);
    handle_key_up(&mut s, "ArrowRight");
    assert!(!s.as_ref().unwrap().player.is_moving_right);
    handle_key_down(&mut s, "x");
    assert_eq!(s.as_ref().unwrap().player.velocity_y, 0);
    handle_key_down(&mut s, " ");
    assert_eq!(s.as_ref().unwrap().player.velocity_y, -30);
    let mut t = Some(fresh());
    handle_key_down(&mut t, "ArrowUp");
    assert!(t.as_ref().unwrap().player.is_jumping);
}

#[test]
fn named_directions() {
    assert_eq!(direction_of("left"), Some(Direction::Left));
    assert_eq!(direction_of("right"), Some(Direction::Right));
    assert_eq!(direction_of("up"), None);
    assert!(same_text("abc", "abc"));
    assert!(!same_text("abc", "abd"));
    assert!(!same_text("ab", "abc"));
    let mut s = Some(fresh());
    start_move(&mut s, "left");
    assert!(s.as_ref().unwrap().player.is_moving_left);
    stop_move(&mut s, "left");
    assert!(!s.as_ref().unwrap().player.is_moving_left);
    start_move(&mut s, "sideways");
    assert!(!s.as_ref().unwrap().player.is_moving_right);
    jump(&mut s);
    assert!(s.as_ref().unwrap().player.is_jumping);
    resize(&mut s, 10, 20);
    assert_eq!(s.as_ref().unwrap().width, 10);
    assert_eq!(s.as_ref().unwrap().height, 20);
}
