use vstd::prelude::*;

verus! {

/// How fast the ghosts start.
#[derive(Clone, Copy, Debug, PartialEq, Eq, Structural)]
pub enum Difficulty {
    Easy,
    Medium,
    Hard,
}

/// The start menu: the number of ghosts, the difficulty, and the selected row
/// (0 ghosts, 1 difficulty, 2 start).
#[derive(Clone, Copy, Debug, PartialEq, Eq, Structural)]
pub struct MenuState {
    pub num_ghosts: usize,
    pub difficulty: Difficulty,
    pub selected: usize,
}

/// The keys pressed on the menu this frame.
#[derive(Clone, Copy, Debug, PartialEq, Eq, Structural)]
pub struct MenuKeys {
    pub up: bool,
    pub down: bool,
    pub left: bool,
    pub right: bool,
    pub one: bool,
    pub two: bool,
}

pub open spec fn harder(d: Difficulty) -> Difficulty {
    match d {
        Difficulty::Easy => Difficulty::Medium,
        Difficulty::Medium => Difficulty::Hard,
        Difficulty::Hard => Difficulty::Easy,
    }
}

pub open spec fn easier(d: Difficulty) -> Difficulty {
    match d {
        Difficulty::Easy => Difficulty::Hard,
        Difficulty::Medium => Difficulty::Easy,
        Difficulty::Hard => Difficulty::Medium,
    }
}

/// The menu after one frame of keys: down and up move the selection cyclically over
/// the three rows; on the ghosts row left or 1 picks one ghost and right or 2 picks
/// two; on the difficulty row left and right cycle the difficulty.
pub open spec fn menu_step_spec(m: MenuState, k: MenuKeys) -> MenuState {
    let s1 = if k.down {
        (m.selected + 1) % 3
    } else {
        m.selected as int
    };
    let s2 = if k.up {
        (s1 + 2) % 3
    } else {
        s1
    };
    let g1 = if s2 == 0 && (k.left || k.one) {
        1
    } else {
        m.num_ghosts as int
    };
    let g2 = if s2 == 0 && (k.right || k.two) {
        2
    } else {
        g1
    };
    let d1 = if s2 == 1 && k.left {
        easier(m.difficulty)
    } else {
        m.difficulty
    };
    let d2 = if s2 == 1 && k.right {
        harder(d1)
    } else {
        d1
    };
    MenuState { num_ghosts: g2 as usize, difficulty: d2, selected: s2 as usize }
}

impl MenuState {
    /// The menu as the game opens it: two ghosts, medium difficulty, first row.
    pub fn new() -> (r: MenuState)
        ensures
            r == (MenuState { num_ghosts: 2, difficulty: Difficulty::Medium, selected: 0 }),
    {
        MenuState { num_ghosts: 2, difficulty: Difficulty::Medium, selected: 0 }
    }

    pub open spec fn wf(&self) -> bool {
        self.selected < 3
    }

    /// Applies one frame of menu keys.
    pub fn step(&mut self, k: MenuKeys)
        requires
            old(self).wf(),
        ensures
            *final(self) == menu_step_spec(*old(self), k),
            final(self).wf(),
    {
        if k.down {
            self.selected = (self.selected + 1) % 3;
        }
        if k.up {
            self.selected = (self.selected + 2) % 3;
        }
        if self.selected == 0 {
            if k.left || k.one {
                self.num_ghosts = 1;
            }
            if k.right || k.two {
                self.num_ghosts = 2;
            }
        }
        if self.selected == 1 {
            if k.left {
                self.difficulty = match self.difficulty {
                    Difficulty::Easy => Difficulty::Hard,
                    Difficulty::Medium => Difficulty::Easy,
                    Difficulty::Hard => Difficulty::Medium,
                };
            }
            if k.right {
                self.difficulty = match self.difficulty {
                    Difficulty::Easy => Difficulty::Medium,
                    Difficulty::Medium => Difficulty::Hard,
                    Difficulty::Hard => Difficulty::Easy,
                };
            }
        }
    }
}

/// The ghosts' starting speed for a difficulty, in sub-units per frame
/// (one, two or three world units).
pub fn base_ghost_speed(d: Difficulty) -> (r: i64)
    ensures
        r == match d {
            Difficulty::Easy => 4096int,
            Difficulty::Medium => 8192int,
            Difficulty::Hard => 12288int,
        },
{
    match d {
        Difficulty::Easy => 4096,
        Difficulty::Medium => 8192,
        Difficulty::Hard => 12288,
    }
}

} // verus!
