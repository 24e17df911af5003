use raycaster::frame::{game_over_action, pickup, GameOverAction};
use raycaster::game_state::{GameMode, GameState, POWER_MODE_DURATION_MS};
use raycaster::probe::Point;
use raycaster::grid::{Maze, CELL_SPAN};
use raycaster::player::{process_events, Controls, Player, BASE_SPEED, POWER_SPEED, ROTATION_SPEED};
use raycaster::textures::{get_pixel_color, Color, TextureManager};
use raycaster::trig::{SineTable, ANGLE_UNITS, TRIG_ONE};

fn table() -> SineTable {
    // The first quarter from f64, the rest by symmetry.
    let quarter = ANGLE_UNITS / 4;
    let mut v = vec![0i64; ANGLE_UNITS as usize];
    for i in 0..=quarter {
        let a = (i as f64) * std::f64::consts::PI * 2.0 / (ANGLE_UNITS as f64);
        v[i as usize] = (a.sin() * TRIG_ONE as f64).round() as i64;
    }
    for i in quarter + 1..2 * quarter {
        v[i as usize] = v[(2 * quarter - i) as usize];
    }
    for i in 2 * quarter..ANGLE_UNITS {
        v[i as usize] = -v[(i - 2 * quarter) as usize];
    }
    SineTable::from_values(v).unwrap()
}

fn none() -> Controls {
    Controls { forward: false, back: false, turn_left: false, turn_right: false }
}

#[test]
fn new_game_defaults() {
    let g = GameState::new(5000);
    assert_eq!(g.score, 0);
    assert_eq!(g.level, 1);
    assert_eq!(g.lives, 3);
    assert!(g.is_playing());
    assert_eq!(g.level_start_time, 5000);
    assert_eq!(g.bonus_multiplier, 1);
    assert_eq!(g.get_power_mode_remaining(), 0);
}

#[test]
fn add_score_uses_multiplier_and_high_score() {
    let mut g = GameState::new(0);
    g.bonus_multiplier = 3;
    g.add_score(10);
    assert_eq!(g.score, 30);
    assert_eq!(g.high_score, 30);
    g.score = 9950;
    g.bonus_multiplier = 1;
    g.add_score(50);
    assert_eq!(g.score, 10000);
    assert_eq!(g.lives, 4);
    g.add_score(10);
    assert_eq!(g.lives, 4);
    g.score = u32::MAX - 5;
    g.add_score(10);
    assert_eq!(g.score, u32::MAX);
}

#[test]
fn power_mode_runs_down() {
    let mut g = GameState::new(0);
    g.activate_power_mode();
    assert!(g.power_mode_active);
    assert_eq!(g.bonus_multiplier, 2);
    assert_eq!(g.get_power_mode_remaining(), POWER_MODE_DURATION_MS);
    g.update(1000, 4000);
    assert!(g.power_mode_active);
    assert_eq!(g.power_mode_timer, POWER_MODE_DURATION_MS - 4000);
    assert_eq!(g.bonus_multiplier, 2);
    g.update(2000, 6000);
    assert!(!g.power_mode_active);
    assert_eq!(g.get_power_mode_remaining(), 0);
    assert_eq!(g.bonus_multiplier, 3);
    assert_eq!(g.get_level_time(), 2000);
}

#[test]
fn multiplier_follows_level_time() {
    let mut g = GameState::new(1000);
    g.update(1000 + 29999, 16);
    assert_eq!(g.bonus_multiplier, 3);
    g.update(1000 + 30000, 16);
    assert_eq!(g.bonus_multiplier, 2);
    g.update(1000 + 60000, 16);
    assert_eq!(g.bonus_multiplier, 1);
}

#[test]
fn pause_toggles_only_play() {
    let mut g = GameState::new(0);
    g.pause_game();
    assert!(g.is_paused());
    g.pause_game();
    assert!(g.is_playing());
    g.mode = GameMode::Menu;
    g.pause_game();
    assert_eq!(g.mode, GameMode::Menu);
    g.mode = GameMode::Playing;
    g.handle_input(true, false, 0);
    assert!(g.is_paused());
    g.handle_input(false, true, 0);
    assert!(g.is_paused());
}

#[test]
fn losing_last_life_ends_game() {
    let mut g = GameState::new(0);
    g.lose_life(100);
    g.lose_life(200);
    assert_eq!(g.lives, 1);
    assert!(g.is_playing());
    g.lose_life(300);
    assert_eq!(g.lives, 0);
    assert!(g.is_game_over());
    assert_eq!(g.game_over_time, Some(300));
}

#[test]
fn level_completion_bonuses() {
    assert_eq!(GameState::time_bonus(0), 1200);
    assert_eq!(GameState::time_bonus(60000), 600);
    assert_eq!(GameState::time_bonus(119950), 0);
    assert_eq!(GameState::time_bonus(200000), 0);
    let mut g = GameState::new(0);
    g.game_time = 100000;
    g.level = 2;
    g.complete_level(100500);
    assert!(g.is_level_complete());
    assert_eq!(g.level_complete_time, 100500);
    assert_eq!(g.score, 2000 + 200);
    g.handle_input(false, true, 200000);
    assert!(g.is_playing());
    assert_eq!(g.level, 3);
    assert_eq!(g.level_start_time, 200000);
}

#[test]
fn reset_keeps_high_score() {
    let mut g = GameState::new(0);
    g.add_score(100);
    g.lose_life(5);
    g.reset_game(7000);
    assert_eq!(g.score, 0);
    assert_eq!(g.high_score, 100);
    assert_eq!(g.lives, 3);
    assert_eq!(g.level_start_time, 7000);
    assert_eq!(g.game_over_time, None);
}

#[test]
fn player_starts_at_cell_centre() {
    let p = Player::new(10, 15);
    assert_eq!(p.pos.x, 10 * CELL_SPAN + CELL_SPAN / 2);
    assert_eq!(p.pos.y, 15 * CELL_SPAN + CELL_SPAN / 2);
    assert_eq!(p.angle, 0);
    assert_eq!(p.speed, BASE_SPEED);
}

#[test]
fn player_turns_and_walks() {
    let t = table();
    let m = Maze::new();
    let mut p = Player::new(10, 15);
    let start = p.pos;
    let mut c = none();
    c.turn_left = true;
    process_events(&mut p, &m, c, false, &t);
    assert_eq!(p.angle, ANGLE_UNITS - ROTATION_SPEED);
    assert_eq!(p.pos, start);
    p.angle = 0;
    let mut f = none();
    f.forward = true;
    process_events(&mut p, &m, f, false, &t);
    assert_eq!(p.pos.x, start.x + BASE_SPEED);
    assert_eq!(p.pos.y, start.y);
    process_events(&mut p, &m, f, true, &t);
    assert_eq!(p.speed, POWER_SPEED);
    assert_eq!(p.pos.x, start.x + BASE_SPEED + POWER_SPEED);
    let mut both = none();
    both.forward = true;
    both.back = true;
    let before = p.pos;
    process_events(&mut p, &m, both, false, &t);
    assert_eq!(p.pos, before);
}

#[test]
fn player_stops_at_wall() {
    let t = table();
    let m = Maze::new();
    // Cell (1, 1) is open; north of it is the border wall.
    let mut p = Player::new(1, 1);
    p.angle = 2700;
    let mut f = none();
    f.forward = true;
    for _ in 0..20 {
        process_events(&mut p, &m, f, false, &t);
    }
    assert!(p.pos.y >= CELL_SPAN);
    assert_eq!(p.pos.x, CELL_SPAN + CELL_SPAN / 2);
}

#[test]
fn pixel_reads_and_bounds() {
    let data: Vec<u8> = (0..16).collect();
    let blue = Color { r: 0, g: 0, b: 255, a: 255 };
    assert_eq!(get_pixel_color(&data, 2, 2, 1, 1), Color { r: 12, g: 13, b: 14, a: 15 });
    assert_eq!(get_pixel_color(&data, 2, 2, 1, 0), Color { r: 4, g: 5, b: 6, a: 7 });
    assert_eq!(get_pixel_color(&data, 2, 2, 2, 0), blue);
    assert_eq!(get_pixel_color(&data, 2, 2, -1, 0), blue);
    assert_eq!(get_pixel_color(&data, 2, 3, 0, 2), blue);
}

#[test]
fn texture_manager_fallbacks() {
    let tm = TextureManager::new(vec![1, 2]);
    assert!(tm.has_texture(2));
    assert!(!tm.has_texture(3));
    assert_eq!(tm.get_wall_texture_id(4, 9), 1);
    assert_eq!(tm.get_pixel_color(1, 0, 0), Color { r: 255, g: 0, b: 0, a: 255 });
    assert_eq!(tm.get_pixel_color(2, 3, 4), Color { r: 0, g: 0, b: 255, a: 255 });
    assert_eq!(tm.get_pixel_color(3, 0, 0), Color { r: 0, g: 128, b: 0, a: 255 });
    assert_eq!(tm.get_pixel_color(9, 0, 0), Color { r: 255, g: 255, b: 255, a: 255 });
}

#[test]
fn pickup_scores_and_starts_power_mode() {
    let mut m = Maze::new();
    let mut g = GameState::new(0);
    g.bonus_multiplier = 1;
    let at = |cx: i64, cy: i64| Point { x: cx * CELL_SPAN + 5, y: cy * CELL_SPAN + 7 };
    assert_eq!(pickup(&mut m, &mut g, at(1, 1)), Some(10));
    assert_eq!(g.score, 10);
    assert!(!g.power_mode_active);
    assert_eq!(pickup(&mut m, &mut g, at(1, 1)), None);
    assert_eq!(g.score, 10);
    assert_eq!(pickup(&mut m, &mut g, at(1, 2)), Some(50));
    assert_eq!(g.score, 60);
    assert!(g.power_mode_active);
    assert_eq!(g.bonus_multiplier, 2);
    assert_eq!(pickup(&mut m, &mut g, Point { x: -3, y: 5 }), None);
    assert_eq!(pickup(&mut m, &mut g, at(40, 2)), None);
    assert_eq!(m.pellets_collected(), 2);
}

#[test]
fn game_over_window() {
    let mut g = GameState::new(0);
    assert_eq!(game_over_action(&g, 100), GameOverAction::Nothing);
    g.lives = 1;
    g.lose_life(1000);
    assert_eq!(game_over_action(&g, 1000), GameOverAction::AcceptKeys);
    assert_eq!(game_over_action(&g, 5999), GameOverAction::AcceptKeys);
    assert_eq!(game_over_action(&g, 6000), GameOverAction::Nothing);
    assert_eq!(game_over_action(&g, 6001), GameOverAction::Restart);
    g.game_over_time = None;
    assert_eq!(game_over_action(&g, 9000), GameOverAction::Nothing);
}

#[test]
fn player_spawns_in_far_cell() {
    let p = Player::new(1000, 2000);
    assert_eq!(p.pos.x, 1000 * CELL_SPAN + CELL_SPAN / 2);
    assert_eq!(p.pos.y, 2000 * CELL_SPAN + CELL_SPAN / 2);
}
