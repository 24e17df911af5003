use vstd::prelude::*;
use crate::arith::floor_div;
use crate::grid::{in_grid, Maze, CELL_SPAN, HEIGHT, WIDTH};
use crate::probe::{blocked, cell_index, check_collision, Point};
use crate::ray::POS_LIMIT;
use crate::trig::{wrap_angle, wrap_spec, SineTable, ANGLE_UNITS, TRIG_ONE};

verus! {

/// Walking speed, in sub-units per frame (2.5 world units).
pub const BASE_SPEED: i64 = 10240;

/// Walking speed in power mode, one and a half times the base speed.
pub const POWER_SPEED: i64 = 15360;

/// Turning speed, in angle units per frame (about 0.05 radians).
pub const ROTATION_SPEED: i64 = 29;

/// Largest cell index a player can spawn in: its centre must fit the position bound.
pub const MAX_SPAWN_CELL: usize = 8388607;

/// The actor the view is rendered from.
#[derive(Clone, Copy, Debug, PartialEq, Eq, Structural)]
pub struct Player {
    pub pos: Point,
    pub angle: i64,
    pub speed: i64,
    pub rotation_speed: i64,
}

/// The keys held down during one frame.
#[derive(Clone, Copy, Debug, PartialEq, Eq, Structural)]
pub struct Controls {
    pub forward: bool,
    pub back: bool,
    pub turn_left: bool,
    pub turn_right: bool,
}

/// A position whose coordinates a move may start from.
pub open spec fn pos_ok(p: Point) -> bool {
    &&& -POS_LIMIT <= p.x <= POS_LIMIT
    &&& -POS_LIMIT <= p.y <= POS_LIMIT
}

/// Axis-separated movement: the X step is kept only if it lands outside any wall,
/// then the Y step, from the resulting position, under the same rule.
pub open spec fn move_spec(m: Maze, p: Point, dx: int, dy: int) -> (int, int) {
    let x = if !blocked(m, p.x + dx, p.y as int) {
        p.x + dx
    } else {
        p.x as int
    };
    let y = if !blocked(m, x, p.y + dy) {
        p.y + dy
    } else {
        p.y as int
    };
    (x, y)
}

proof fn lemma_unblocked_in_grid(m: Maze, x: int, y: int)
    requires
        !blocked(m, x, y),
    ensures
        0 <= x < WIDTH * CELL_SPAN,
        0 <= y < HEIGHT * CELL_SPAN,
{
    let cx = cell_index(x);
    let cy = cell_index(y);
    vstd::arithmetic::div_mod::lemma_fundamental_div_mod(x, CELL_SPAN as int);
    vstd::arithmetic::div_mod::lemma_mod_bound(x, CELL_SPAN as int);
    vstd::arithmetic::div_mod::lemma_fundamental_div_mod(y, CELL_SPAN as int);
    vstd::arithmetic::div_mod::lemma_mod_bound(y, CELL_SPAN as int);
    if !in_grid(cx, cy) {
        Maze::lemma_outside_is_wall(m, cx, cy);
    }
    assert(0 <= cx < WIDTH && 0 <= cy < HEIGHT);
    assert(0 <= x < WIDTH * CELL_SPAN) by (nonlinear_arith)
        requires
            0 <= cx < WIDTH,
            x == CELL_SPAN * cx + x % (CELL_SPAN as int),
            0 <= x % (CELL_SPAN as int) < CELL_SPAN,
    ;
    assert(0 <= y < HEIGHT * CELL_SPAN) by (nonlinear_arith)
        requires
            0 <= cy < HEIGHT,
            y == CELL_SPAN * cy + y % (CELL_SPAN as int),
            0 <= y % (CELL_SPAN as int) < CELL_SPAN,
    ;
}

/// Moves `p` by `(dx, dy)`, one axis at a time, keeping each axis step only when it
/// does not end in a wall, so that a diagonal move slides along walls.
pub fn try_move(p: Point, dx: i64, dy: i64, maze: &Maze) -> (r: Point)
    requires
        maze.wf(),
        pos_ok(p),
        -POS_LIMIT <= dx <= POS_LIMIT,
        -POS_LIMIT <= dy <= POS_LIMIT,
    ensures
        (r.x as int, r.y as int) == move_spec(*maze, p, dx as int, dy as int),
        pos_ok(r),
{
    let mut x = p.x;
    let mut y = p.y;
    if !check_collision(p.x + dx, p.y, maze) {
        x = p.x + dx;
        proof {
            lemma_unblocked_in_grid(*maze, x as int, p.y as int);
        }
    }
    if !check_collision(x, p.y + dy, maze) {
        y = p.y + dy;
        proof {
            lemma_unblocked_in_grid(*maze, x as int, y as int);
        }
    }
    Point { x, y }
}

/// When the X step of a diagonal move would enter a wall and the Y step would not,
/// the actor slides: only its Y coordinate changes.
pub proof fn lemma_wall_slide(m: Maze, p: Point, dx: int, dy: int)
    requires
        blocked(m, p.x + dx, p.y as int),
        !blocked(m, p.x as int, p.y + dy),
    ensures
        move_spec(m, p, dx, dy) == (p.x as int, p.y + dy),
{
}

impl Player {
    /// A player at the centre of cell `(grid_x, grid_y)`, facing along the X axis.
    pub fn new(grid_x: usize, grid_y: usize) -> (r: Player)
        requires
            grid_x <= MAX_SPAWN_CELL,
            grid_y <= MAX_SPAWN_CELL,
        ensures
            r.pos.x == grid_x * CELL_SPAN + CELL_SPAN / 2,
            r.pos.y == grid_y * CELL_SPAN + CELL_SPAN / 2,
            r.angle == 0,
            r.speed == BASE_SPEED,
            r.rotation_speed == ROTATION_SPEED,
            r.wf(),
    {
        let x = (grid_x as i64) * CELL_SPAN + CELL_SPAN / 2;
        let y = (grid_y as i64) * CELL_SPAN + CELL_SPAN / 2;
        Player {
            pos: Point { x, y },
            angle: 0,
            speed: BASE_SPEED,
            rotation_speed: ROTATION_SPEED,
        }
    }

    /// Position in range, heading within one turn, speeds bounded.
    pub open spec fn wf(&self) -> bool {
        &&& pos_ok(self.pos)
        &&& 0 <= self.angle < ANGLE_UNITS
        &&& 0 <= self.speed <= POWER_SPEED
        &&& 0 <= self.rotation_speed <= ANGLE_UNITS
    }
}

/// The heading after one frame of turning.
pub open spec fn turned_spec(angle: int, rot: int, c: Controls) -> int {
    let a1 = if c.turn_right {
        angle + rot
    } else {
        angle
    };
    let a2 = if c.turn_left {
        a1 - rot
    } else {
        a1
    };
    wrap_spec(a2)
}

/// The step direction for one frame: forward along the heading, back against it,
/// nothing when both or neither are held.
pub open spec fn direction_spec(t: SineTable, angle: int, c: Controls) -> (int, int) {
    if c.forward && !c.back {
        (t.cos_spec(angle), t.sin_spec(angle))
    } else if c.back && !c.forward {
        (-t.cos_spec(angle), -t.sin_spec(angle))
    } else {
        (0, 0)
    }
}

/// Applies one frame of controls to the player: sets the speed for the current mode,
/// turns, then moves along the heading at that speed with wall sliding.
pub fn process_events(
    player: &mut Player,
    maze: &Maze,
    controls: Controls,
    power_mode: bool,
    t: &SineTable,
)
    requires
        old(player).wf(),
        maze.wf(),
        t.wf(),
    ensures
        final(player).wf(),
        final(player).speed == if power_mode {
            POWER_SPEED
        } else {
            BASE_SPEED
        },
        final(player).rotation_speed == old(player).rotation_speed,
        final(player).angle == turned_spec(
            old(player).angle as int,
            old(player).rotation_speed as int,
            controls,
        ),
        ({
            let (dx, dy) = direction_spec(*t, final(player).angle as int, controls);
            let speed = final(player).speed as int;
            (final(player).pos.x as int, final(player).pos.y as int) == move_spec(
                *maze,
                old(player).pos,
                (dx * speed) / (TRIG_ONE as int),
                (dy * speed) / (TRIG_ONE as int),
            )
        }),
{
    player.speed = if power_mode {
        POWER_SPEED
    } else {
        BASE_SPEED
    };
    let mut a = player.angle;
    if controls.turn_right {
        a = a + player.rotation_speed;
    }
    if controls.turn_left {
        a = a - player.rotation_speed;
    }
    player.angle = wrap_angle(a);
    let (dx, dy) = if controls.forward && !controls.back {
        (t.cos(player.angle), t.sin(player.angle))
    } else if controls.back && !controls.forward {
        (-t.cos(player.angle), -t.sin(player.angle))
    } else {
        (0i64, 0i64)
    };
    let speed = player.speed;
    proof {
        assert(-TRIG_ONE * POWER_SPEED <= dx * speed <= TRIG_ONE * POWER_SPEED) by (nonlinear_arith)
            requires
                -TRIG_ONE <= dx <= TRIG_ONE,
                0 <= speed <= POWER_SPEED,
        ;
        assert(-TRIG_ONE * POWER_SPEED <= dy * speed <= TRIG_ONE * POWER_SPEED) by (nonlinear_arith)
            requires
                -TRIG_ONE <= dy <= TRIG_ONE,
                0 <= speed <= POWER_SPEED,
        ;
        vstd::arithmetic::div_mod::lemma_div_is_ordered(dx * speed, TRIG_ONE * POWER_SPEED, TRIG_ONE as int);
        vstd::arithmetic::div_mod::lemma_div_is_ordered(-TRIG_ONE * POWER_SPEED, dx * speed, TRIG_ONE as int);
        vstd::arithmetic::div_mod::lemma_div_is_ordered(dy * speed, TRIG_ONE * POWER_SPEED, TRIG_ONE as int);
        vstd::arithmetic::div_mod::lemma_div_is_ordered(-TRIG_ONE * POWER_SPEED, dy * speed, TRIG_ONE as int);
    }
    let mx = floor_div(dx * speed, TRIG_ONE);
    let my = floor_div(dy * speed, TRIG_ONE);
    player.pos = try_move(player.pos, mx, my, maze);
}

} // verus!
