use vstd::prelude::*;

verus! {

/// What occupies one cell of the maze.
#[derive(Clone, Copy, Debug, PartialEq, Eq, Structural)]
pub enum Cell {
    Wall,
    Path,
    Pellet,
    PowerPellet,
}

/// Number of columns of every maze.
pub const WIDTH: usize = 21;

/// Number of rows of every maze.
pub const HEIGHT: usize = 25;

/// Side of one cell, in world units.
pub const CELL_SIZE: i64 = 32;

/// Fixed-point resolution: sub-units per world unit.
pub const SUB_UNITS: i64 = 4096;

/// Side of one cell, in sub-units.
pub const CELL_SPAN: i64 = CELL_SIZE * SUB_UNITS;

/// Reward for an ordinary pellet.
pub const PELLET_POINTS: u32 = 10;

/// Reward for a power pellet; it also starts power mode.
pub const POWER_PELLET_POINTS: u32 = 50;

pub open spec fn is_pellet(c: Cell) -> bool {
    c == Cell::Pellet || c == Cell::PowerPellet
}

/// The cell kind that a layout symbol stands for; unknown symbols are open floor.
pub open spec fn cell_of_char(c: char) -> Cell {
    if c == '#' {
        Cell::Wall
    } else if c == '.' {
        Cell::Pellet
    } else if c == 'o' {
        Cell::PowerPellet
    } else {
        Cell::Path
    }
}

/// The cell at column `x`, row `y` of a textual layout; what the layout does not cover is wall.
pub open spec fn layout_cell(rows: Seq<Seq<char>>, x: int, y: int) -> Cell {
    if 0 <= y < rows.len() && 0 <= x < rows[y].len() {
        cell_of_char(rows[y][x])
    } else {
        Cell::Wall
    }
}

pub open spec fn rows_view(rows: Seq<&str>) -> Seq<Seq<char>> {
    rows.map_values(|r: &str| r@)
}

/// Number of cells that still hold a pellet of either kind.
pub open spec fn pellet_count(s: Seq<Cell>) -> nat
    decreases s.len(),
{
    if s.len() == 0 {
        0
    } else {
        pellet_count(s.drop_last()) + if is_pellet(s.last()) {
            1nat
        } else {
            0nat
        }
    }
}

pub open spec fn in_grid(x: int, y: int) -> bool {
    0 <= x < WIDTH && 0 <= y < HEIGHT
}

pub open spec fn flat_index(x: int, y: int) -> int {
    y * WIDTH + x
}

pub proof fn lemma_pellet_count_le_len(s: Seq<Cell>)
    ensures
        pellet_count(s) <= s.len(),
    decreases s.len(),
{
    if s.len() > 0 {
        lemma_pellet_count_le_len(s.drop_last());
    }
}

pub proof fn lemma_pellet_count_update(s: Seq<Cell>, i: int, v: Cell)
    requires
        0 <= i < s.len(),
    ensures
        pellet_count(s.update(i, v)) + (if is_pellet(s[i]) { 1int } else { 0int })
            == pellet_count(s) + (if is_pellet(v) { 1int } else { 0int }),
    decreases s.len(),
{
    let t = s.update(i, v);
    if i == s.len() - 1 {
        assert(t.drop_last() =~= s.drop_last());
    } else {
        assert(t.drop_last() =~= s.drop_last().update(i, v));
        lemma_pellet_count_update(s.drop_last(), i, v);
    }
}

pub proof fn lemma_pellet_count_zero(s: Seq<Cell>, i: int)
    requires
        pellet_count(s) == 0,
        0 <= i < s.len(),
    ensures
        !is_pellet(s[i]),
    decreases s.len(),
{
    if i < s.len() - 1 {
        assert(s.drop_last()[i] == s[i]);
        lemma_pellet_count_zero(s.drop_last(), i);
    }
}

/// A fixed-size grid of cells, stored row by row in one flat buffer.
pub struct Maze {
    cells: Vec<Cell>,
    pellets_collected: u32,
    total_pellets: u32,
}

impl Maze {
    /// The maze is well formed: the buffer covers the grid, and the pellets collected
    /// plus those left make up the total counted at construction.
    pub open spec fn wf(&self) -> bool {
        &&& self.cells_view().len() == WIDTH * HEIGHT
        &&& self.collected_spec() + pellet_count(self.cells_view()) == self.total_spec()
    }

    pub closed spec fn cells_view(&self) -> Seq<Cell> {
        self.cells@
    }

    pub closed spec fn collected_spec(&self) -> nat {
        self.pellets_collected as nat
    }

    pub closed spec fn total_spec(&self) -> nat {
        self.total_pellets as nat
    }

    /// The cell at column `x`, row `y`; anything outside the grid is wall.
    pub open spec fn cell_spec(&self, x: int, y: int) -> Cell {
        if in_grid(x, y) {
            self.cells_view()[flat_index(x, y)]
        } else {
            Cell::Wall
        }
    }

    /// Builds a maze from rows of layout symbols: `#` wall, `.` pellet, `o` power pellet,
    /// anything else open floor. Rows and columns past the grid are ignored; cells that
    /// the layout does not reach are wall.
    pub fn from_rows(rows: &Vec<&str>) -> (r: Maze)
        ensures
            r.wf(),
            r.collected_spec() == 0,
            r.total_spec() == pellet_count(r.cells_view()),
            forall|x: int, y: int|
                in_grid(x, y) ==> #[trigger] r.cell_spec(x, y) == layout_cell(
                    rows_view(rows@),
                    x,
                    y,
                ),
    {
        let ghost rv = rows_view(rows@);
        let mut cells: Vec<Cell> = Vec::new();
        let mut i: usize = 0;
        while i < WIDTH * HEIGHT
            invariant
                i <= WIDTH * HEIGHT,
                cells@.len() == i,
                forall|j: int| 0 <= j < i ==> cells@[j] == Cell::Wall,
            decreases WIDTH * HEIGHT - i,
        {
            cells.push(Cell::Wall);
            i = i + 1;
        }
        proof {
            lemma_prefix_walls(cells@, cells@.len() as int);
            assert(cells@.subrange(0, cells@.len() as int) =~= cells@);
        }
        let mut total: u32 = 0;
        let n_rows: usize = if rows.len() < HEIGHT {
            rows.len()
        } else {
            HEIGHT
        };
        let mut y: usize = 0;
        while y < n_rows
            invariant
                n_rows <= HEIGHT,
                n_rows <= rows@.len(),
                rv == rows_view(rows@),
                y <= n_rows,
                cells@.len() == WIDTH * HEIGHT,
                total as nat == pellet_count(cells@),
                forall|cx: int, cy: int|
                    in_grid(cx, cy) ==> #[trigger] cells@[flat_index(cx, cy)] == if cy < y {
                        layout_cell(rv, cx, cy)
                    } else {
                        Cell::Wall
                    },
            decreases n_rows - y,
        {
            let row: &str = rows[y];
            let len: usize = row.unicode_len();
            let n_cols: usize = if len < WIDTH {
                len
            } else {
                WIDTH
            };
            assert(rv[y as int] == row@);
            let mut x: usize = 0;
            while x < n_cols
                invariant
                    n_rows <= HEIGHT,
                    n_rows <= rows@.len(),
                    rv == rows_view(rows@),
                    y < n_rows,
                    rv[y as int] == row@,
                    len == row@.len(),
                    n_cols <= WIDTH,
                    n_cols <= len,
                    x <= n_cols,
                    cells@.len() == WIDTH * HEIGHT,
                    total as nat == pellet_count(cells@),
                    forall|cx: int, cy: int|
                        in_grid(cx, cy) ==> #[trigger] cells@[flat_index(cx, cy)] == if cy < y
                            || (cy == y && cx < x) {
                            layout_cell(rv, cx, cy)
                        } else {
                            Cell::Wall
                        },
                decreases n_cols - x,
            {
                let ch = row.get_char(x);
                let c = if ch == '#' {
                    Cell::Wall
                } else if ch == '.' {
                    Cell::Pellet
                } else if ch == 'o' {
                    Cell::PowerPellet
                } else {
                    Cell::Path
                };
                let idx: usize = y * WIDTH + x;
                proof {
                    assert(cells@[flat_index(x as int, y as int)] == Cell::Wall);
                    lemma_pellet_count_update(cells@, idx as int, c);
                    lemma_pellet_count_le_len(cells@.update(idx as int, c));
                }
                cells.set(idx, c);
                if c == Cell::Pellet || c == Cell::PowerPellet {
                    total = total + 1;
                }
                x = x + 1;
            }
            proof {
                assert forall|cx: int, cy: int| in_grid(cx, cy) implies #[trigger] cells@[flat_index(
                    cx,
                    cy,
                )] == if cy < y + 1 {
                    layout_cell(rv, cx, cy)
                } else {
                    Cell::Wall
                } by {
                    if cy == y && cx >= x {
                        assert(layout_cell(rv, cx, cy) == Cell::Wall);
                    }
                }
            }
            y = y + 1;
        }
        let r = Maze { cells, pellets_collected: 0, total_pellets: total };
        proof {
            assert forall|x: int, y: int| in_grid(x, y) implies #[trigger] r.cell_spec(x, y)
                == layout_cell(rv, x, y) by {
                if y >= n_rows {
                    assert(layout_cell(rv, x, y) == Cell::Wall);
                }
            }
        }
        r
    }

    /// Builds the standard level.
    pub fn new() -> (r: Maze)
        ensures
            r.wf(),
            r.collected_spec() == 0,
            r.total_spec() == pellet_count(r.cells_view()),
            forall|x: int, y: int|
                in_grid(x, y) ==> #[trigger] r.cell_spec(x, y) == layout_cell(
                    rows_view(default_layout_rows()),
                    x,
                    y,
                ),
    {
        let rows = default_layout();
        Maze::from_rows(&rows)
    }

    /// The cell at column `x`, row `y`; wall outside the grid.
    pub fn get_cell(&self, x: usize, y: usize) -> (r: Cell)
        requires
            self.wf(),
        ensures
            r == self.cell_spec(x as int, y as int),
    {
        if y < HEIGHT && x < WIDTH {
            self.cells[y * WIDTH + x]
        } else {
            Cell::Wall
        }
    }

    /// The cell at signed cell coordinates; wall outside the grid.
    pub fn cell_at(&self, x: i64, y: i64) -> (r: Cell)
        requires
            self.wf(),
        ensures
            r == self.cell_spec(x as int, y as int),
    {
        if 0 <= x && x < WIDTH as i64 && 0 <= y && y < HEIGHT as i64 {
            self.cells[(y as usize) * WIDTH + (x as usize)]
        } else {
            Cell::Wall
        }
    }

    /// What collecting at `(x, y)` does: a pellet of either kind becomes open floor
    /// and is counted; any other cell, or a place outside the grid, is left alone.
    pub open spec fn collect_step(old: Maze, new: Maze, x: int, y: int, r: Option<u32>) -> bool {
        &&& r == collect_reward(old.cell_spec(x, y))
        &&& new.total_spec() == old.total_spec()
        &&& if r.is_some() {
            &&& new.cells_view() == old.cells_view().update(flat_index(x, y), Cell::Path)
            &&& new.collected_spec() == old.collected_spec() + 1
        } else {
            &&& new.cells_view() == old.cells_view()
            &&& new.collected_spec() == old.collected_spec()
        }
    }

    /// Takes the pellet at `(x, y)`, if any, and returns its reward.
    pub fn collect_pellet(&mut self, x: usize, y: usize) -> (r: Option<u32>)
        requires
            old(self).wf(),
        ensures
            final(self).wf(),
            Maze::collect_step(*old(self), *final(self), x as int, y as int, r),
            r.is_some() ==> final(self).cell_spec(x as int, y as int) == Cell::Path,
            forall|i: int, j: int|
                !(i == x && j == y) ==> #[trigger] final(self).cell_spec(i, j) == old(
                    self,
                ).cell_spec(i, j),
            pellet_count(final(self).cells_view()) + (if r.is_some() {
                1int
            } else {
                0int
            }) == pellet_count(old(self).cells_view()),
    {
        if y < HEIGHT && x < WIDTH {
            let idx: usize = y * WIDTH + x;
            let c = self.cells[idx];
            let points: u32 = match c {
                Cell::Pellet => PELLET_POINTS,
                Cell::PowerPellet => POWER_PELLET_POINTS,
                _ => {
                    return None;
                },
            };
            proof {
                lemma_pellet_count_update(self.cells@, idx as int, Cell::Path);
            }
            self.cells.set(idx, Cell::Path);
            self.pellets_collected = self.pellets_collected + 1;
            Some(points)
        } else {
            None
        }
    }

    /// True once every pellet counted at construction has been collected.
    pub fn is_level_complete(&self) -> (r: bool)
        requires
            self.wf(),
        ensures
            r == (self.collected_spec() >= self.total_spec()),
            r == (pellet_count(self.cells_view()) == 0),
            r == (forall|x: int, y: int|
                in_grid(x, y) ==> !is_pellet(#[trigger] self.cell_spec(x, y))),
    {
        proof {
            Maze::lemma_complete_iff_no_pellets(*self);
        }
        self.pellets_collected >= self.total_pellets
    }

    pub fn pellets_collected(&self) -> (r: u32)
        ensures
            r == self.collected_spec(),
    {
        self.pellets_collected
    }

    pub fn total_pellets(&self) -> (r: u32)
        ensures
            r == self.total_spec(),
    {
        self.total_pellets
    }

    /// Every place outside the grid reads as wall.
    pub proof fn lemma_outside_is_wall(m: Maze, x: int, y: int)
        requires
            !in_grid(x, y),
        ensures
            m.cell_spec(x, y) == Cell::Wall,
    {
    }

    /// The maze is complete exactly when no cell of the grid holds a pellet.
    pub proof fn lemma_complete_iff_no_pellets(m: Maze)
        requires
            m.wf(),
        ensures
            (m.collected_spec() >= m.total_spec()) <==> (forall|x: int, y: int|
                in_grid(x, y) ==> !is_pellet(#[trigger] m.cell_spec(x, y))),
    {
        if m.collected_spec() >= m.total_spec() {
            assert forall|x: int, y: int| in_grid(x, y) implies !is_pellet(
                #[trigger] m.cell_spec(x, y),
            ) by {
                lemma_pellet_count_zero(m.cells@, flat_index(x, y));
            }
        } else {
            let i = lemma_pellet_witness(m.cells@);
            let x = i % (WIDTH as int);
            let y = i / (WIDTH as int);
            assert(flat_index(x, y) == i);
            assert(in_grid(x, y));
            assert(is_pellet(m.cell_spec(x, y)));
        }
    }

    /// Collecting twice at the same place: the second call finds nothing, and
    /// leaves the maze as the first call left it.
    pub proof fn lemma_collect_idempotent(
        m0: Maze,
        m1: Maze,
        m2: Maze,
        x: int,
        y: int,
        r1: Option<u32>,
        r2: Option<u32>,
    )
        requires
            m0.wf(),
            Maze::collect_step(m0, m1, x, y, r1),
            Maze::collect_step(m1, m2, x, y, r2),
        ensures
            r1.is_some() <==> is_pellet(m0.cell_spec(x, y)),
            m0.cell_spec(x, y) == Cell::Pellet ==> r1 == Some(PELLET_POINTS),
            r2.is_none(),
            m2.cells_view() == m1.cells_view(),
            m2.collected_spec() == m1.collected_spec(),
    {
        if r1.is_some() {
            assert(in_grid(x, y));
            assert(m1.cell_spec(x, y) == Cell::Path);
        }
    }

    /// A maze that has collected nothing yet and holds a pellet somewhere is not complete.
    pub proof fn lemma_fresh_not_complete(m: Maze, x: int, y: int)
        requires
            m.wf(),
            m.collected_spec() == 0,
            in_grid(x, y),
            is_pellet(m.cell_spec(x, y)),
        ensures
            m.collected_spec() < m.total_spec(),
    {
        Maze::lemma_complete_iff_no_pellets(m);
    }

    /// Collecting never lowers the collected count and never changes the total.
    pub proof fn lemma_collect_monotonic(m0: Maze, m1: Maze, x: int, y: int, r: Option<u32>)
        requires
            Maze::collect_step(m0, m1, x, y, r),
        ensures
            m1.collected_spec() >= m0.collected_spec(),
            m1.total_spec() == m0.total_spec(),
    {
    }
}

/// The reward that collecting a cell of kind `c` yields.
pub open spec fn collect_reward(c: Cell) -> Option<u32> {
    match c {
        Cell::Pellet => Some(PELLET_POINTS),
        Cell::PowerPellet => Some(POWER_PELLET_POINTS),
        _ => None,
    }
}

proof fn lemma_pellet_witness(s: Seq<Cell>) -> (i: int)
    requires
        pellet_count(s) > 0,
    ensures
        0 <= i < s.len(),
        is_pellet(s[i]),
    decreases s.len(),
{
    if is_pellet(s.last()) {
        s.len() - 1
    } else {
        let j = lemma_pellet_witness(s.drop_last());
        assert(s.drop_last()[j] == s[j]);
        j
    }
}

/// The rows of the standard level.
pub open spec fn default_layout_rows() -> Seq<&'static str> {
    seq![
        "#####################",
        "#.........#.........#",
        "#o##.###.#.#.###.##o#",
        "#...................#",
        "#.##.#.#####.#.##.#.#",
        "#....#...#...#....#.#",
        "####.###.#.###.######",
        "   #.#.......#.#     ",
        "####.#.##-##.#.######",
        "#......#   #......  #",
        "####.#.#####.#.######",
        "   #.#.......#.#     ",
        "####.#.#####.#.######",
        "#.........#.........#",
        "#.##.###.#.#.###.##.#",
        "#o.#.....P.....#.o.#",
        "##.#.#.#####.#.#.##.#",
        "#....#...#...#....#.#",
        "#.######.#.######.#.#",
        "#...................#",
        "#####################",
    ]
}

/// The rows of the standard level, top to bottom.
pub fn default_layout() -> (r: Vec<&'static str>)
    ensures
        r@ == default_layout_rows(),
{
    let r = vec![
        "#####################",
        "#.........#.........#",
        "#o##.###.#.#.###.##o#",
        "#...................#",
        "#.##.#.#####.#.##.#.#",
        "#....#...#...#....#.#",
        "####.###.#.###.######",
        "   #.#.......#.#     ",
        "####.#.##-##.#.######",
        "#......#   #......  #",
        "####.#.#####.#.######",
        "   #.#.......#.#     ",
        "####.#.#####.#.######",
        "#.........#.........#",
        "#.##.###.#.#.###.##.#",
        "#o.#.....P.....#.o.#",
        "##.#.#.#####.#.#.##.#",
        "#....#...#...#....#.#",
        "#.######.#.######.#.#",
        "#...................#",
        "#####################",
    ];
    assert(r@ =~= default_layout_rows());
    r
}

proof fn lemma_prefix_walls(s: Seq<Cell>, k: int)
    requires
        0 <= k <= s.len(),
        forall|j: int| 0 <= j < s.len() ==> s[j] == Cell::Wall,
    ensures
        pellet_count(s.subrange(0, k)) == 0,
    decreases k,
{
    if k > 0 {
        assert(s.subrange(0, k).drop_last() =~= s.subrange(0, k - 1));
        lemma_prefix_walls(s, k - 1);
    }
}

} // verus!
