use vstd::prelude::*;
use crate::game_state::{with_score, GameMode, GameState};
use crate::grid::{collect_reward, Maze, CELL_SPAN, HEIGHT, POWER_PELLET_POINTS, WIDTH};
use crate::probe::{cell_index, cell_of, Point};

verus! {

/// Milliseconds after game over during which retry and menu keys are taken; once
/// they have passed, the game starts afresh.
pub const GAME_OVER_WINDOW_MS: u64 = 5000;

/// What to do about a finished game at a given time.
#[derive(Clone, Copy, Debug, PartialEq, Eq, Structural)]
pub enum GameOverAction {
    /// The game is not over, or the window has exactly closed.
    Nothing,
    /// Retry and menu keys are taken.
    AcceptKeys,
    /// The window has passed: start over.
    Restart,
}

/// The action for state `g` at time `now`.
pub open spec fn game_over_spec(g: GameState, now: int) -> GameOverAction {
    if g.mode == GameMode::GameOver && g.game_over_time.is_some() {
        let t = g.game_over_time.unwrap() as int;
        if now > t + GAME_OVER_WINDOW_MS {
            GameOverAction::Restart
        } else if now < t + GAME_OVER_WINDOW_MS {
            GameOverAction::AcceptKeys
        } else {
            GameOverAction::Nothing
        }
    } else {
        GameOverAction::Nothing
    }
}

/// Decides what a finished game does at time `now`.
pub fn game_over_action(g: &GameState, now: u64) -> (r: GameOverAction)
    ensures
        r == game_over_spec(*g, now as int),
{
    if g.mode == GameMode::GameOver {
        match g.game_over_time {
            Some(t) => {
                if now > t && now - t > GAME_OVER_WINDOW_MS {
                    GameOverAction::Restart
                } else if now < t || now - t < GAME_OVER_WINDOW_MS {
                    GameOverAction::AcceptKeys
                } else {
                    GameOverAction::Nothing
                }
            },
            None => GameOverAction::Nothing,
        }
    } else {
        GameOverAction::Nothing
    }
}

/// The game state after a pickup worth `reward`: the points are scored, and a power
/// pellet's reward then starts power mode.
pub open spec fn rewarded(g: GameState, reward: Option<u32>) -> GameState {
    match reward {
        Some(p) => {
            let g1 = with_score(g, p as int);
            if p == POWER_PELLET_POINTS {
                GameState {
                    power_mode_active: true,
                    power_mode_timer: g1.power_mode_duration,
                    bonus_multiplier: 2,
                    ..g1
                }
            } else {
                g1
            }
        },
        None => g,
    }
}

/// Collects whatever lies in the player's cell and scores it; a power pellet starts
/// power mode. A position left of or above the grid collects nothing.
pub fn pickup(maze: &mut Maze, g: &mut GameState, pos: Point) -> (r: Option<u32>)
    requires
        old(maze).wf(),
    ensures
        final(maze).wf(),
        pos.x >= 0 && pos.y >= 0 ==> Maze::collect_step(
            *old(maze),
            *final(maze),
            cell_index(pos.x as int),
            cell_index(pos.y as int),
            r,
        ),
        !(pos.x >= 0 && pos.y >= 0) ==> r.is_none() && *final(maze) == *old(maze),
        r == (if pos.x >= 0 && pos.y >= 0 {
            collect_reward(old(maze).cell_spec(cell_index(pos.x as int), cell_index(pos.y as int)))
        } else {
            None
        }),
        *final(g) == rewarded(*old(g), r),
{
    if pos.x < 0 || pos.y < 0 {
        return None;
    }
    let cx = cell_of(pos.x);
    let cy = cell_of(pos.y);
    proof {
        vstd::arithmetic::div_mod::lemma_div_pos_is_pos(pos.x as int, CELL_SPAN as int);
        vstd::arithmetic::div_mod::lemma_div_pos_is_pos(pos.y as int, CELL_SPAN as int);
    }
    if cx >= WIDTH as i64 || cy >= HEIGHT as i64 {
        proof {
            Maze::lemma_outside_is_wall(*maze, cx as int, cy as int);
        }
        return None;
    }
    let r = maze.collect_pellet(cx as usize, cy as usize);
    match r {
        Some(p) => {
            g.add_score(p);
            if p == POWER_PELLET_POINTS {
                g.activate_power_mode();
            }
        },
        None => {},
    }
    r
}

} // verus!
