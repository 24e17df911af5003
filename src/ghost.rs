use vstd::prelude::*;
use crate::grid::{Maze, CELL_SPAN};
use crate::player::{pos_ok, try_move};
use crate::probe::{blocked, check_collision, Point};
use crate::ray::{abs, POS_LIMIT};

verus! {

/// A step of length `speed` toward the sign of `v`; zero counts as positive.
pub open spec fn step_toward(v: int, speed: int) -> int {
    if v >= 0 {
        speed
    } else {
        -speed
    }
}

/// One chase step of a ghost at `g` toward `target`: it tries the axis on which the
/// target is farther, and only if that step is blocked, the other axis.
pub open spec fn chase_spec(m: Maze, g: Point, target: Point, speed: int) -> (int, int) {
    let dx = target.x - g.x;
    let dy = target.y - g.y;
    let sx = g.x + step_toward(dx, speed);
    let sy = g.y + step_toward(dy, speed);
    if abs(dx) > abs(dy) {
        if !blocked(m, sx, g.y as int) {
            (sx, g.y as int)
        } else if !blocked(m, g.x as int, sy) {
            (g.x as int, sy)
        } else {
            (g.x as int, g.y as int)
        }
    } else {
        if !blocked(m, g.x as int, sy) {
            (g.x as int, sy)
        } else if !blocked(m, sx, g.y as int) {
            (sx, g.y as int)
        } else {
            (g.x as int, g.y as int)
        }
    }
}

fn step_toward_i64(v: i64, speed: i64) -> (r: i64)
    requires
        0 <= speed <= POS_LIMIT,
    ensures
        r == step_toward(v as int, speed as int),
{
    if v >= 0 {
        speed
    } else {
        -speed
    }
}

/// Moves a ghost one step toward `target`, greedily along the farther axis.
pub fn chase_step(g: Point, target: Point, speed: i64, maze: &Maze) -> (r: Point)
    requires
        maze.wf(),
        pos_ok(g),
        pos_ok(target),
        0 <= speed <= POS_LIMIT,
    ensures
        (r.x as int, r.y as int) == chase_spec(*maze, g, target, speed as int),
        pos_ok(r),
{
    let dx = target.x - g.x;
    let dy = target.y - g.y;
    let stx = step_toward_i64(dx, speed);
    let sty = step_toward_i64(dy, speed);
    let sx = g.x + stx;
    let sy = g.y + sty;
    let ax = if dx < 0 {
        -dx
    } else {
        dx
    };
    let ay = if dy < 0 {
        -dy
    } else {
        dy
    };
    if ax > ay {
        if !check_collision(sx, g.y, maze) {
            try_move(g, stx, 0, maze)
        } else if !check_collision(g.x, sy, maze) {
            try_move(g, 0, sty, maze)
        } else {
            g
        }
    } else {
        if !check_collision(g.x, sy, maze) {
            try_move(g, 0, sty, maze)
        } else if !check_collision(sx, g.y, maze) {
            try_move(g, stx, 0, maze)
        } else {
            g
        }
    }
}

/// A ghost catches the player when both are within half a cell on each axis.
pub open spec fn caught_spec(g: Point, p: Point) -> bool {
    abs(g.x - p.x) < CELL_SPAN / 2 && abs(g.y - p.y) < CELL_SPAN / 2
}

/// Whether a ghost at `g` has caught the player at `p`.
pub fn ghost_catches(g: Point, p: Point) -> (r: bool)
    requires
        pos_ok(g),
        pos_ok(p),
    ensures
        r == caught_spec(g, p),
{
    let dx = g.x - p.x;
    let dy = g.y - p.y;
    let ax = if dx < 0 {
        -dx
    } else {
        dx
    };
    let ay = if dy < 0 {
        -dy
    } else {
        dy
    };
    ax < CELL_SPAN / 2 && ay < CELL_SPAN / 2
}

/// A ghost moves at three quarters of the player's speed.
pub fn ghost_speed(player_speed: i64) -> (r: i64)
    requires
        0 <= player_speed <= POS_LIMIT,
    ensures
        r == player_speed * 3 / 4,
        0 <= r <= player_speed,
{
    player_speed * 3 / 4
}

} // verus!
