use vstd::prelude::*;

verus! {

/// Where the game stands.
#[derive(Clone, Copy, Debug, PartialEq, Eq, Structural)]
pub enum GameMode {
    Playing,
    LevelComplete,
    GameOver,
    Paused,
    Menu,
}

/// Length of power mode, in milliseconds.
pub const POWER_MODE_DURATION_MS: i64 = 10000;

/// Score steps at which an extra life is granted.
pub const EXTRA_LIFE_SCORE: u32 = 10000;

/// Lives at the start of a game.
pub const START_LIVES: u32 = 3;

/// Points per level number when a level is completed.
pub const LEVEL_BONUS: u32 = 1000;

/// Time limit for the time bonus, in milliseconds.
pub const TIME_BONUS_LIMIT_MS: u64 = 120000;

/// Score and progress bookkeeping; times are milliseconds on the caller's clock.
#[derive(Clone, Copy, Debug, PartialEq, Eq, Structural)]
pub struct GameState {
    pub score: u32,
    pub level: u32,
    pub lives: u32,
    pub mode: GameMode,
    pub high_score: u32,
    pub level_start_time: u64,
    pub game_time: u64,
    pub level_complete_time: u64,
    pub power_mode_active: bool,
    pub power_mode_timer: i64,
    pub power_mode_duration: i64,
    pub bonus_multiplier: u32,
    pub game_over_time: Option<u64>,
}

/// `a + b`, held at `u32::MAX`.
pub open spec fn sat_add(a: int, b: int) -> int {
    if a + b > u32::MAX {
        u32::MAX as int
    } else {
        a + b
    }
}

/// `a * b`, held at `u32::MAX`.
pub open spec fn sat_mul(a: int, b: int) -> int {
    if a * b > u32::MAX {
        u32::MAX as int
    } else {
        a * b
    }
}

fn saturating_add_u32(a: u32, b: u32) -> (r: u32)
    ensures
        r == sat_add(a as int, b as int),
{
    let s: u64 = a as u64 + b as u64;
    if s > u32::MAX as u64 {
        u32::MAX
    } else {
        s as u32
    }
}

fn saturating_mul_u32(a: u32, b: u32) -> (r: u32)
    ensures
        r == sat_mul(a as int, b as int),
{
    proof {
        assert((a as int) * (b as int) <= (u32::MAX as int) * (u32::MAX as int)) by (nonlinear_arith);
        assert(0 <= (a as int) * (b as int)) by (nonlinear_arith);
    }
    let p: u64 = a as u64 * b as u64;
    if p > u32::MAX as u64 {
        u32::MAX
    } else {
        p as u32
    }
}

/// The multiplier that the elapsed level time earns outside power mode.
pub open spec fn time_multiplier(game_time: int) -> u32 {
    if game_time < 30000 {
        3
    } else if game_time < 60000 {
        2
    } else {
        1
    }
}

/// The score after adding `points` at multiplier `mult`.
pub open spec fn scored(score: int, points: int, mult: int) -> int {
    sat_add(score, sat_mul(points, mult))
}

/// The time bonus of a level that took `game_time` milliseconds: ten points per
/// second under two minutes.
pub open spec fn time_bonus_spec(game_time: int) -> int {
    if game_time >= TIME_BONUS_LIMIT_MS {
        0
    } else {
        (TIME_BONUS_LIMIT_MS - game_time) / 100
    }
}

/// The state after adding `points` at the current multiplier: the score grows (held at
/// `u32::MAX`), the high score follows it, and landing on a multiple of 10000 grants a life.
pub open spec fn with_score(g: GameState, points: int) -> GameState {
    let s = scored(g.score as int, points, g.bonus_multiplier as int);
    GameState {
        score: s as u32,
        high_score: if s > g.high_score {
            s as u32
        } else {
            g.high_score
        },
        lives: if s > 0 && s % (EXTRA_LIFE_SCORE as int) == 0 {
            sat_add(g.lives as int, 1) as u32
        } else {
            g.lives
        },
        ..g
    }
}

impl GameState {
    /// A fresh game at level one, started at time `now`.
    pub fn new(now: u64) -> (r: GameState)
        ensures
            r == (GameState {
                score: 0,
                level: 1,
                lives: START_LIVES,
                mode: GameMode::Playing,
                high_score: 0,
                level_start_time: now,
                game_time: 0,
                level_complete_time: 0,
                power_mode_active: false,
                power_mode_timer: 0,
                power_mode_duration: POWER_MODE_DURATION_MS,
                bonus_multiplier: 1,
                game_over_time: None,
            }),
    {
        GameState {
            score: 0,
            level: 1,
            lives: START_LIVES,
            mode: GameMode::Playing,
            high_score: 0,
            level_start_time: now,
            game_time: 0,
            level_complete_time: 0,
            power_mode_active: false,
            power_mode_timer: 0,
            power_mode_duration: POWER_MODE_DURATION_MS,
            bonus_multiplier: 1,
            game_over_time: None,
        }
    }

    /// Advances the clocks to `now`, after a frame of `frame_ms` milliseconds: power mode
    /// runs down and ends when its timer is spent, and outside power mode the bonus
    /// multiplier follows the elapsed level time.
    pub fn update(&mut self, now: u64, frame_ms: u32)
        requires
            old(self).power_mode_timer >= -(u32::MAX as i64),
        ensures
            final(self).game_time == if now >= old(self).level_start_time {
                now - old(self).level_start_time
            } else {
                0
            },
            ({
                let timer = old(self).power_mode_timer - frame_ms;
                if old(self).power_mode_active && timer > 0 {
                    &&& final(self).power_mode_active
                    &&& final(self).power_mode_timer == timer
                    &&& final(self).bonus_multiplier == old(self).bonus_multiplier
                } else {
                    &&& !final(self).power_mode_active
                    &&& final(self).power_mode_timer == if old(self).power_mode_active {
                        0
                    } else {
                        old(self).power_mode_timer
                    }
                    &&& final(self).bonus_multiplier == time_multiplier(
                        final(self).game_time as int,
                    )
                }
            }),
            final(self).score == old(self).score,
            final(self).level == old(self).level,
            final(self).lives == old(self).lives,
            final(self).mode == old(self).mode,
            final(self).high_score == old(self).high_score,
            final(self).level_start_time == old(self).level_start_time,
            final(self).level_complete_time == old(self).level_complete_time,
            final(self).power_mode_duration == old(self).power_mode_duration,
            final(self).game_over_time == old(self).game_over_time,
    {
        self.game_time = if now >= self.level_start_time {
            now - self.level_start_time
        } else {
            0
        };
        if self.power_mode_active {
            self.power_mode_timer = self.power_mode_timer - frame_ms as i64;
            if self.power_mode_timer <= 0 {
                self.deactivate_power_mode();
            }
        }
        self.update_bonus_multiplier();
    }

    /// Adds `points` at the current multiplier, raises the high score when passed,
    /// and grants a life whenever the score lands on a multiple of 10000.
    pub fn add_score(&mut self, points: u32)
        ensures
            *final(self) == with_score(*old(self), points as int),
    {
        let bonus_points = saturating_mul_u32(points, self.bonus_multiplier);
        self.score = saturating_add_u32(self.score, bonus_points);
        if self.score > self.high_score {
            self.high_score = self.score;
        }
        if self.score > 0 && self.score % EXTRA_LIFE_SCORE == 0 {
            self.lives = saturating_add_u32(self.lives, 1);
        }
    }

    /// Starts power mode: full timer and a doubled multiplier.
    pub fn activate_power_mode(&mut self)
        ensures
            *final(self) == (GameState {
                power_mode_active: true,
                power_mode_timer: old(self).power_mode_duration,
                bonus_multiplier: 2,
                ..*old(self)
            }),
    {
        self.power_mode_active = true;
        self.power_mode_timer = self.power_mode_duration;
        self.bonus_multiplier = 2;
    }

    /// Ends power mode.
    pub fn deactivate_power_mode(&mut self)
        ensures
            *final(self) == (GameState {
                power_mode_active: false,
                power_mode_timer: 0,
                bonus_multiplier: 1,
                ..*old(self)
            }),
    {
        self.power_mode_active = false;
        self.power_mode_timer = 0;
        self.bonus_multiplier = 1;
    }

    /// Takes a life; losing the last one ends the game at time `now`.
    pub fn lose_life(&mut self, now: u64)
        ensures
            ({
                let lives = if old(self).lives > 0 {
                    old(self).lives - 1
                } else {
                    0
                };
                if lives == 0 {
                    *final(self) == (GameState {
                        lives: lives as u32,
                        mode: GameMode::GameOver,
                        game_over_time: Some(now),
                        ..*old(self)
                    })
                } else {
                    *final(self) == (GameState { lives: lives as u32, ..*old(self) })
                }
            }),
    {
        if self.lives > 0 {
            self.lives = self.lives - 1;
        }
        if self.lives == 0 {
            self.mode = GameMode::GameOver;
            self.game_over_time = Some(now);
        }
    }

    /// The time bonus a level earns: ten points for each second under two minutes.
    pub fn time_bonus(game_time: u64) -> (r: u32)
        ensures
            r == time_bonus_spec(game_time as int),
    {
        if game_time >= TIME_BONUS_LIMIT_MS {
            0
        } else {
            ((TIME_BONUS_LIMIT_MS - game_time) / 100) as u32
        }
    }

    /// Marks the level complete at time `now` and adds the level and time bonuses.
    pub fn complete_level(&mut self, now: u64)
        ensures
            *final(self) == with_score(
                GameState {
                    mode: GameMode::LevelComplete,
                    level_complete_time: now,
                    ..*old(self)
                },
                sat_add(
                    sat_mul(old(self).level as int, LEVEL_BONUS as int),
                    time_bonus_spec(old(self).game_time as int),
                ),
            ),
    {
        self.mode = GameMode::LevelComplete;
        self.level_complete_time = now;
        let time_bonus = GameState::time_bonus(self.game_time);
        let level_bonus = saturating_mul_u32(self.level, LEVEL_BONUS);
        self.add_score(saturating_add_u32(level_bonus, time_bonus));
    }

    /// Moves on to the next level, starting its clock at `now`, without power mode.
    pub fn next_level(&mut self, now: u64)
        ensures
            *final(self) == (GameState {
                level: sat_add(old(self).level as int, 1) as u32,
                mode: GameMode::Playing,
                level_start_time: now,
                power_mode_active: false,
                power_mode_timer: 0,
                bonus_multiplier: 1,
                ..*old(self)
            }),
    {
        self.level = saturating_add_u32(self.level, 1);
        self.mode = GameMode::Playing;
        self.level_start_time = now;
        self.deactivate_power_mode();
    }

    /// Starts over from level one at time `now`; the high score is kept.
    pub fn reset_game(&mut self, now: u64)
        ensures
            *final(self) == (GameState {
                score: 0,
                level: 1,
                lives: START_LIVES,
                mode: GameMode::Playing,
                level_start_time: now,
                game_time: 0,
                power_mode_active: false,
                power_mode_timer: 0,
                bonus_multiplier: 1,
                game_over_time: None,
                ..*old(self)
            }),
    {
        self.score = 0;
        self.level = 1;
        self.lives = START_LIVES;
        self.mode = GameMode::Playing;
        self.level_start_time = now;
        self.game_time = 0;
        self.deactivate_power_mode();
        self.bonus_multiplier = 1;
        self.game_over_time = None;
    }

    /// Toggles between playing and paused; other modes are left alone.
    pub fn pause_game(&mut self)
        ensures
            *final(self) == (GameState {
                mode: if old(self).mode == GameMode::Playing {
                    GameMode::Paused
                } else if old(self).mode == GameMode::Paused {
                    GameMode::Playing
                } else {
                    old(self).mode
                },
                ..*old(self)
            }),
    {
        if self.mode == GameMode::Playing {
            self.mode = GameMode::Paused;
        } else if self.mode == GameMode::Paused {
            self.mode = GameMode::Playing;
        }
    }

    pub fn is_playing(&self) -> (r: bool)
        ensures
            r == (self.mode == GameMode::Playing),
    {
        self.mode == GameMode::Playing
    }

    pub fn is_paused(&self) -> (r: bool)
        ensures
            r == (self.mode == GameMode::Paused),
    {
        self.mode == GameMode::Paused
    }

    pub fn is_game_over(&self) -> (r: bool)
        ensures
            r == (self.mode == GameMode::GameOver),
    {
        self.mode == GameMode::GameOver
    }

    pub fn is_level_complete(&self) -> (r: bool)
        ensures
            r == (self.mode == GameMode::LevelComplete),
    {
        self.mode == GameMode::LevelComplete
    }

    /// Milliseconds of power mode left; zero outside power mode.
    pub fn get_power_mode_remaining(&self) -> (r: i64)
        ensures
            r == if self.power_mode_active {
                self.power_mode_timer
            } else {
                0
            },
    {
        if self.power_mode_active {
            self.power_mode_timer
        } else {
            0
        }
    }

    /// Milliseconds since the level started.
    pub fn get_level_time(&self) -> (r: u64)
        ensures
            r == self.game_time,
    {
        self.game_time
    }

    /// Outside power mode, sets the multiplier from the elapsed level time.
    fn update_bonus_multiplier(&mut self)
        ensures
            *final(self) == (GameState {
                bonus_multiplier: if old(self).power_mode_active {
                    old(self).bonus_multiplier
                } else {
                    time_multiplier(old(self).game_time as int)
                },
                ..*old(self)
            }),
    {
        if !self.power_mode_active {
            if self.game_time < 30000 {
                self.bonus_multiplier = 3;
            } else if self.game_time < 60000 {
                self.bonus_multiplier = 2;
            } else {
                self.bonus_multiplier = 1;
            }
        }
    }

    /// Reacts to the keys pressed this frame: the pause key toggles pause while playing
    /// or paused, and the continue key starts the next level once one is complete.
    pub fn handle_input(&mut self, pause_pressed: bool, continue_pressed: bool, now: u64)
        ensures
            ({
                let o = *old(self);
                if (o.mode == GameMode::Playing || o.mode == GameMode::Paused) && pause_pressed {
                    *final(self) == (GameState {
                        mode: if o.mode == GameMode::Playing {
                            GameMode::Paused
                        } else {
                            GameMode::Playing
                        },
                        ..o
                    })
                } else if o.mode == GameMode::LevelComplete && continue_pressed {
                    *final(self) == (GameState {
                        level: sat_add(o.level as int, 1) as u32,
                        mode: GameMode::Playing,
                        level_start_time: now,
                        power_mode_active: false,
                        power_mode_timer: 0,
                        bonus_multiplier: 1,
                        ..o
                    })
                } else {
                    *final(self) == o
                }
            }),
    {
        match self.mode {
            GameMode::Playing => {
                if pause_pressed {
                    self.pause_game();
                }
            },
            GameMode::Paused => {
                if pause_pressed {
                    self.pause_game();
                }
            },
            GameMode::LevelComplete => {
                if continue_pressed {
                    self.next_level(now);
                }
            },
            _ => {},
        }
    }
}

} // verus!
