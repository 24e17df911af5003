use vstd::prelude::*;
use crate::arith::floor_div;
use crate::grid::{Cell, Maze, CELL_SPAN};
use crate::probe::{blocked, cell_index, Point};
use crate::trig::{SineTable, TRIG_ONE};

verus! {

/// Distance the probe advances per step: half a world unit, in sub-units.
/// A direction of fixed-point length `TRIG_ONE` moves the probe by one step.
pub const STEP: i64 = 2048;

/// Safety cap on the distance a ray travels, in sub-units (1000 world units).
pub const MAX_DISTANCE: i64 = 4096000;

/// Number of steps after which the distance exceeds the cap.
pub const MAX_STEPS: i64 = 2000;

/// Bound on the coordinates of a ray's origin, in sub-units.
pub const POS_LIMIT: i64 = 1099511627776;

/// Where a ray struck: the distance travelled in sub-units, the cell struck, and the
/// sample coordinate along the struck face in `[0, CELL_SPAN)`, which stands for `[0, 1)`.
#[derive(Clone, Copy, Debug, PartialEq, Eq, Structural)]
pub struct Intersect {
    pub distance: i64,
    pub wall_x: i64,
    pub wall_y: i64,
    pub texture_coord: i64,
}

/// The coordinate of the probe after `k` steps.
pub open spec fn probe(o: int, d: int, k: int) -> int {
    o + k * d
}

pub open spec fn abs(v: int) -> int {
    if v < 0 {
        -v
    } else {
        v
    }
}

/// The face sample at `(px, py)` in the cell `(wx, wy)`: the offset along the axis
/// whose offset is not the larger one, reduced to its fractional part of a cell.
pub open spec fn texture_of(px: int, py: int, wx: int, wy: int) -> int {
    let ox = px - wx * CELL_SPAN;
    let oy = py - wy * CELL_SPAN;
    if abs(ox) > abs(oy) {
        abs(oy) % (CELL_SPAN as int)
    } else {
        abs(ox) % (CELL_SPAN as int)
    }
}

/// The origin and step direction a ray may be cast with.
pub open spec fn ray_input_ok(o: Point, dx: int, dy: int) -> bool {
    &&& -POS_LIMIT <= o.x <= POS_LIMIT
    &&& -POS_LIMIT <= o.y <= POS_LIMIT
    &&& -TRIG_ONE <= dx <= TRIG_ONE
    &&& -TRIG_ONE <= dy <= TRIG_ONE
}

/// The number of steps a hit stands for.
pub open spec fn hit_steps(r: Intersect) -> int {
    (r.distance as int) / (STEP as int)
}

/// `r` is what marching from `o` by `(dx, dy)` per step yields: the probe stops at
/// the first step whose position is blocked, or once the distance exceeds the cap;
/// the struck cell is that of the stopping probe when it is blocked, else `(0, 0)`.
pub open spec fn ray_result(m: Maze, o: Point, dx: int, dy: int, r: Intersect) -> bool {
    let k = hit_steps(r);
    let px = probe(o.x as int, dx, k);
    let py = probe(o.y as int, dy, k);
    &&& r.distance == k * STEP
    &&& 1 <= k <= MAX_STEPS + 1
    &&& forall|j: int|
        1 <= j < k ==> !blocked(m, #[trigger] probe(o.x as int, dx, j), probe(o.y as int, dy, j))
    &&& blocked(m, px, py) || k == MAX_STEPS + 1
    &&& if blocked(m, px, py) {
        r.wall_x == cell_index(px) && r.wall_y == cell_index(py)
    } else {
        r.wall_x == 0 && r.wall_y == 0
    }
    &&& r.texture_coord == texture_of(px, py, r.wall_x as int, r.wall_y as int)
}

proof fn lemma_step_bound(k: int, d: int)
    requires
        0 <= k <= MAX_STEPS + 1,
        -TRIG_ONE <= d <= TRIG_ONE,
    ensures
        -(MAX_STEPS + 1) * TRIG_ONE <= k * d <= (MAX_STEPS + 1) * TRIG_ONE,
{
    assert(-(MAX_STEPS + 1) * TRIG_ONE <= k * d <= (MAX_STEPS + 1) * TRIG_ONE) by (nonlinear_arith)
        requires
            0 <= k <= MAX_STEPS + 1,
            -TRIG_ONE <= d <= TRIG_ONE,
    ;
}

fn abs_i64(v: i64) -> (r: i64)
    requires
        v > i64::MIN,
    ensures
        r as int == abs(v as int),
{
    if v < 0 {
        -v
    } else {
        v
    }
}

/// The face sample of a hit at `(px, py)` in cell `(wx, wy)`.
pub fn texture_coordinate(px: i64, py: i64, wx: i64, wy: i64) -> (r: i64)
    requires
        -2 * POS_LIMIT <= px <= 2 * POS_LIMIT,
        -2 * POS_LIMIT <= py <= 2 * POS_LIMIT,
        -2 * POS_LIMIT <= wx * CELL_SPAN <= 2 * POS_LIMIT,
        -2 * POS_LIMIT <= wy * CELL_SPAN <= 2 * POS_LIMIT,
    ensures
        r as int == texture_of(px as int, py as int, wx as int, wy as int),
        0 <= r < CELL_SPAN,
{
    let ox = abs_i64(px - wx * CELL_SPAN);
    let oy = abs_i64(py - wy * CELL_SPAN);
    if ox > oy {
        oy % CELL_SPAN
    } else {
        ox % CELL_SPAN
    }
}

/// Marches a probe from `o` by `(dx, dy)` per step until it meets a wall, leaves the
/// grid, or passes the distance cap.
pub fn march(o: Point, dx: i64, dy: i64, maze: &Maze) -> (r: Intersect)
    requires
        maze.wf(),
        ray_input_ok(o, dx as int, dy as int),
    ensures
        ray_result(*maze, o, dx as int, dy as int, r),
        0 <= r.texture_coord < CELL_SPAN,
        STEP <= r.distance <= MAX_DISTANCE + STEP,
{
    let mut k: i64 = 0;
    let mut px: i64 = o.x;
    let mut py: i64 = o.y;
    let mut hit: bool = false;
    let mut done: bool = false;
    while !done
        invariant
            maze.wf(),
            ray_input_ok(o, dx as int, dy as int),
            0 <= k <= MAX_STEPS + 1,
            !done ==> k <= MAX_STEPS,
            px == probe(o.x as int, dx as int, k as int),
            py == probe(o.y as int, dy as int, k as int),
            forall|j: int|
                1 <= j < k ==> !blocked(
                    *maze,
                    #[trigger] probe(o.x as int, dx as int, j),
                    probe(o.y as int, dy as int, j),
                ),
            !done ==> k == 0 || !blocked(*maze, px as int, py as int),
            done ==> k >= 1,
            !done ==> !hit,
            done ==> (hit == blocked(*maze, px as int, py as int)),
            done ==> hit || k == MAX_STEPS + 1,
        decreases MAX_STEPS + 1 - k,
    {
        proof {
            lemma_step_bound(k as int, dx as int);
            lemma_step_bound(k as int, dy as int);
            lemma_step_bound(k + 1, dx as int);
            lemma_step_bound(k + 1, dy as int);
            assert((k + 1) * dx == k * dx + dx) by (nonlinear_arith);
            assert((k + 1) * dy == k * dy + dy) by (nonlinear_arith);
        }
        k = k + 1;
        px = px + dx;
        py = py + dy;
        let gx = floor_div(px, CELL_SPAN);
        let gy = floor_div(py, CELL_SPAN);
        let is_wall = match maze.cell_at(gx, gy) {
            Cell::Wall => true,
            _ => false,
        };
        if is_wall {
            hit = true;
            done = true;
        } else if k > MAX_STEPS {
            done = true;
        }
    }
    proof {
        lemma_step_bound(k as int, dx as int);
        lemma_step_bound(k as int, dy as int);
    }
    let (wx, wy) = if hit {
        (floor_div(px, CELL_SPAN), floor_div(py, CELL_SPAN))
    } else {
        (0i64, 0i64)
    };
    proof {
        assert(-2 * POS_LIMIT <= wx * CELL_SPAN <= 2 * POS_LIMIT) by (nonlinear_arith)
            requires
                wx == 0 || wx as int == (px as int) / (CELL_SPAN as int),
                -2 * POS_LIMIT + CELL_SPAN <= px <= 2 * POS_LIMIT - CELL_SPAN,
        {
            if wx != 0 {
                vstd::arithmetic::div_mod::lemma_fundamental_div_mod(px as int, CELL_SPAN as int);
                vstd::arithmetic::div_mod::lemma_mod_bound(px as int, CELL_SPAN as int);
            }
        }
        assert(-2 * POS_LIMIT <= wy * CELL_SPAN <= 2 * POS_LIMIT) by (nonlinear_arith)
            requires
                wy == 0 || wy as int == (py as int) / (CELL_SPAN as int),
                -2 * POS_LIMIT + CELL_SPAN <= py <= 2 * POS_LIMIT - CELL_SPAN,
        {
            if wy != 0 {
                vstd::arithmetic::div_mod::lemma_fundamental_div_mod(py as int, CELL_SPAN as int);
                vstd::arithmetic::div_mod::lemma_mod_bound(py as int, CELL_SPAN as int);
            }
        }
    }
    let texture_coord = texture_coordinate(px, py, wx, wy);
    let distance = k * STEP;
    proof {
        assert((k * STEP) / (STEP as int) == k) by (nonlinear_arith);
    }
    Intersect { distance, wall_x: wx, wall_y: wy, texture_coord }
}

/// Casts a ray from `origin` at angle `angle` (angle units): the probe advances by
/// the angle's cosine and sine, half a world unit per step.
pub fn cast_ray(origin: Point, angle: i64, table: &SineTable, maze: &Maze) -> (r: Intersect)
    requires
        maze.wf(),
        table.wf(),
        -POS_LIMIT <= origin.x <= POS_LIMIT,
        -POS_LIMIT <= origin.y <= POS_LIMIT,
        -POS_LIMIT <= angle <= POS_LIMIT,
    ensures
        ray_result(*maze, origin, table.cos_spec(angle as int), table.sin_spec(angle as int), r),
        0 <= r.texture_coord < CELL_SPAN,
        STEP <= r.distance <= MAX_DISTANCE + STEP,
{
    let dx = table.cos(angle);
    let dy = table.sin(angle);
    march(origin, dx, dy, maze)
}

/// A ray stops no later than the first step whose probe lies in a wall or outside
/// the grid: the distance it reports is at most that step's distance.
pub proof fn lemma_hit_no_later_than_wall(m: Maze, o: Point, dx: int, dy: int, r: Intersect, j: int)
    requires
        ray_result(m, o, dx, dy, r),
        1 <= j,
        blocked(m, probe(o.x as int, dx, j), probe(o.y as int, dy, j)),
    ensures
        r.distance <= j * STEP,
{
    if hit_steps(r) > j {
        assert(!blocked(m, probe(o.x as int, dx, j), probe(o.y as int, dy, j)));
    }
}

/// A ray whose first step already leaves the grid (or enters a wall) stops there,
/// at one step, well before the distance cap.
pub proof fn lemma_outward_from_edge(m: Maze, o: Point, dx: int, dy: int, r: Intersect)
    requires
        ray_result(m, o, dx, dy, r),
        blocked(m, o.x + dx, o.y + dy),
    ensures
        r.distance == STEP,
        r.wall_x == cell_index(o.x + dx),
        r.wall_y == cell_index(o.y + dy),
{
    assert(probe(o.x as int, dx, 1) == o.x + dx);
    assert(probe(o.y as int, dy, 1) == o.y + dy);
    lemma_hit_no_later_than_wall(m, o, dx, dy, r, 1);
}

proof fn lemma_cell_index_of(v: int, q: int)
    requires
        q * CELL_SPAN <= v < q * CELL_SPAN + CELL_SPAN,
    ensures
        cell_index(v) == q,
{
    vstd::arithmetic::div_mod::lemma_fundamental_div_mod_converse_div(
        v,
        CELL_SPAN as int,
        q,
        v - q * CELL_SPAN,
    );
}

proof fn lemma_cell_index_below(v: int, w: int)
    requires
        v < w * CELL_SPAN,
    ensures
        cell_index(v) < w,
{
    let q = cell_index(v);
    vstd::arithmetic::div_mod::lemma_fundamental_div_mod(v, CELL_SPAN as int);
    vstd::arithmetic::div_mod::lemma_mod_bound(v, CELL_SPAN as int);
    assert(q * CELL_SPAN <= v);
    assert(q < w) by (nonlinear_arith)
        requires
            q * CELL_SPAN <= v,
            v < w * CELL_SPAN,
    ;
}

/// A ray stops exactly at step `js` when that step is blocked and no earlier one is.
pub proof fn lemma_stops_at(m: Maze, o: Point, dx: int, dy: int, r: Intersect, js: int)
    requires
        ray_result(m, o, dx, dy, r),
        1 <= js <= MAX_STEPS,
        blocked(m, probe(o.x as int, dx, js), probe(o.y as int, dy, js)),
        forall|j: int|
            1 <= j < js ==> !blocked(m, #[trigger] probe(o.x as int, dx, j), probe(o.y as int, dy, j)),
    ensures
        hit_steps(r) == js,
        r.distance == js * STEP,
{
    lemma_hit_no_later_than_wall(m, o, dx, dy, r, js);
    let k = hit_steps(r);
    if k < js {
        assert(!blocked(m, probe(o.x as int, dx, k), probe(o.y as int, dy, k)));
    }
}

/// Moving forward from `o` one step at a time toward the cell line `w * CELL_SPAN`:
/// step `js` is the first in cell `w`, and every earlier step lies between `o`'s cell
/// and `w`.
proof fn lemma_forward_crossing(o: int, w: int) -> (js: int)
    requires
        cell_index(o) < w,
        w * CELL_SPAN - o <= MAX_DISTANCE,
    ensures
        1 <= js <= MAX_STEPS,
        w * CELL_SPAN - o <= js * STEP < w * CELL_SPAN - o + STEP,
        cell_index(o + js * STEP) == w,
        forall|j: int|
            1 <= j < js ==> cell_index(o) <= #[trigger] cell_index(o + j * STEP) < w,
{
    let c0 = cell_index(o);
    vstd::arithmetic::div_mod::lemma_fundamental_div_mod(o, CELL_SPAN as int);
    vstd::arithmetic::div_mod::lemma_mod_bound(o, CELL_SPAN as int);
    assert(c0 * CELL_SPAN <= o < c0 * CELL_SPAN + CELL_SPAN);
    assert(c0 * CELL_SPAN + CELL_SPAN <= w * CELL_SPAN) by (nonlinear_arith)
        requires
            c0 < w,
    ;
    let d = w * CELL_SPAN - o;
    assert(d > 0);
    let js = (d + STEP - 1) / (STEP as int);
    vstd::arithmetic::div_mod::lemma_fundamental_div_mod(d + STEP - 1, STEP as int);
    vstd::arithmetic::div_mod::lemma_mod_bound(d + STEP - 1, STEP as int);
    assert(d <= js * STEP < d + STEP);
    lemma_cell_index_of(o + js * STEP, w);
    assert forall|j: int| 1 <= j < js implies cell_index(o) <= #[trigger] cell_index(
        o + j * STEP,
    ) < w by {
        assert(j * STEP < d) by (nonlinear_arith)
            requires
                j < js,
                d + STEP > js * STEP,
                j >= 1,
        ;
        vstd::arithmetic::div_mod::lemma_div_is_ordered(o, o + j * STEP, CELL_SPAN as int);
        lemma_cell_index_below(o + j * STEP, w);
    }
    js
}

/// Moving backward from `o` one step at a time toward the far side of cell `w`:
/// step `js` is the first in cell `w`, and every earlier step lies between `w` and
/// `o`'s cell.
proof fn lemma_backward_crossing(o: int, w: int) -> (js: int)
    requires
        w < cell_index(o),
        o - (w + 1) * CELL_SPAN < MAX_DISTANCE,
    ensures
        1 <= js <= MAX_STEPS,
        o - (w + 1) * CELL_SPAN < js * STEP <= o - (w + 1) * CELL_SPAN + STEP,
        cell_index(o - js * STEP) == w,
        forall|j: int|
            1 <= j < js ==> w < #[trigger] cell_index(o - j * STEP) <= cell_index(o),
{
    let c0 = cell_index(o);
    vstd::arithmetic::div_mod::lemma_fundamental_div_mod(o, CELL_SPAN as int);
    vstd::arithmetic::div_mod::lemma_mod_bound(o, CELL_SPAN as int);
    assert(c0 * CELL_SPAN <= o);
    assert((w + 1) * CELL_SPAN <= c0 * CELL_SPAN) by (nonlinear_arith)
        requires
            w < c0,
    ;
    let d = o - (w + 1) * CELL_SPAN;
    assert(d >= 0);
    let js = d / (STEP as int) + 1;
    vstd::arithmetic::div_mod::lemma_fundamental_div_mod(d, STEP as int);
    vstd::arithmetic::div_mod::lemma_mod_bound(d, STEP as int);
    assert(d < js * STEP <= d + STEP);
    assert(w * CELL_SPAN + CELL_SPAN == (w + 1) * CELL_SPAN) by (nonlinear_arith);
    lemma_cell_index_of(o - js * STEP, w);
    assert forall|j: int| 1 <= j < js implies w < #[trigger] cell_index(o - j * STEP)
        <= cell_index(o) by {
        assert(j * STEP <= d) by (nonlinear_arith)
            requires
                j < js,
                d >= (js - 1) * STEP,
                j >= 1,
        ;
        vstd::arithmetic::div_mod::lemma_div_is_ordered(o - j * STEP, o, CELL_SPAN as int);
        vstd::arithmetic::div_mod::lemma_div_is_ordered(
            (w + 1) * CELL_SPAN,
            o - j * STEP,
            CELL_SPAN as int,
        );
        lemma_cell_index_of((w + 1) * CELL_SPAN, w + 1);
    }
    js
}

/// A ray cast due east (direction `(TRIG_ONE, 0)`) along open cells toward a wall
/// whose near face lies at distance `D` reports a distance in `[D, D + STEP)` and
/// strikes that wall.
pub proof fn lemma_axis_aligned_distance(m: Maze, o: Point, r: Intersect, wx: int)
    requires
        ray_result(m, o, TRIG_ONE as int, 0, r),
        cell_index(o.x as int) < wx,
        forall|cx: int|
            cell_index(o.x as int) <= cx < wx ==> #[trigger] m.cell_spec(cx, cell_index(o.y as int))
                != Cell::Wall,
        m.cell_spec(wx, cell_index(o.y as int)) == Cell::Wall,
        wx * CELL_SPAN - o.x <= MAX_DISTANCE,
    ensures
        wx * CELL_SPAN - o.x <= r.distance < wx * CELL_SPAN - o.x + STEP,
        r.wall_x == wx,
        r.wall_y == cell_index(o.y as int),
{
    let (ox, oy) = (o.x as int, o.y as int);
    let js = lemma_forward_crossing(ox, wx);
    assert forall|j: int| 1 <= j < js implies !blocked(
        m,
        #[trigger] probe(ox, TRIG_ONE as int, j),
        probe(oy, 0, j),
    ) by {
        assert(probe(ox, TRIG_ONE as int, j) == ox + j * STEP);
        assert(cell_index(ox + j * STEP) >= cell_index(ox));
    }
    assert(probe(ox, TRIG_ONE as int, js) == ox + js * STEP);
    lemma_stops_at(m, o, TRIG_ONE as int, 0, r, js);
}

/// A ray cast due west (direction `(-TRIG_ONE, 0)`) along open cells toward a wall
/// whose near face lies at distance `D` reports a distance in `(D, D + STEP]` and
/// strikes that wall.
pub proof fn lemma_axis_aligned_distance_west(m: Maze, o: Point, r: Intersect, wx: int)
    requires
        ray_result(m, o, -TRIG_ONE as int, 0, r),
        wx < cell_index(o.x as int),
        forall|cx: int|
            wx < cx <= cell_index(o.x as int) ==> #[trigger] m.cell_spec(
                cx,
                cell_index(o.y as int),
            ) != Cell::Wall,
        m.cell_spec(wx, cell_index(o.y as int)) == Cell::Wall,
        o.x - (wx + 1) * CELL_SPAN < MAX_DISTANCE,
    ensures
        o.x - (wx + 1) * CELL_SPAN < r.distance <= o.x - (wx + 1) * CELL_SPAN + STEP,
        r.wall_x == wx,
        r.wall_y == cell_index(o.y as int),
{
    let (ox, oy) = (o.x as int, o.y as int);
    let js = lemma_backward_crossing(ox, wx);
    assert forall|j: int| 1 <= j < js implies !blocked(
        m,
        #[trigger] probe(ox, -TRIG_ONE as int, j),
        probe(oy, 0, j),
    ) by {
        assert(probe(ox, -TRIG_ONE as int, j) == ox - j * STEP);
        assert(cell_index(ox - j * STEP) > wx);
    }
    assert(probe(ox, -TRIG_ONE as int, js) == ox - js * STEP);
    lemma_stops_at(m, o, -TRIG_ONE as int, 0, r, js);
}

/// A ray cast due south (direction `(0, TRIG_ONE)`) along open cells toward a wall
/// whose near face lies at distance `D` reports a distance in `[D, D + STEP)` and
/// strikes that wall.
pub proof fn lemma_axis_aligned_distance_south(m: Maze, o: Point, r: Intersect, wy: int)
    requires
        ray_result(m, o, 0, TRIG_ONE as int, r),
        cell_index(o.y as int) < wy,
        forall|cy: int|
            cell_index(o.y as int) <= cy < wy ==> #[trigger] m.cell_spec(cell_index(o.x as int), cy)
                != Cell::Wall,
        m.cell_spec(cell_index(o.x as int), wy) == Cell::Wall,
        wy * CELL_SPAN - o.y <= MAX_DISTANCE,
    ensures
        wy * CELL_SPAN - o.y <= r.distance < wy * CELL_SPAN - o.y + STEP,
        r.wall_x == cell_index(o.x as int),
        r.wall_y == wy,
{
    let (ox, oy) = (o.x as int, o.y as int);
    let js = lemma_forward_crossing(oy, wy);
    assert forall|j: int| 1 <= j < js implies !blocked(
        m,
        #[trigger] probe(ox, 0, j),
        probe(oy, TRIG_ONE as int, j),
    ) by {
        assert(probe(oy, TRIG_ONE as int, j) == oy + j * STEP);
        assert(probe(ox, 0, j) == ox);
        assert(cell_index(oy + j * STEP) >= cell_index(oy));
    }
    assert(probe(oy, TRIG_ONE as int, js) == oy + js * STEP);
    assert(probe(ox, 0, js) == ox);
    lemma_stops_at(m, o, 0, TRIG_ONE as int, r, js);
}

/// A ray cast due north (direction `(0, -TRIG_ONE)`) along open cells toward a wall
/// whose near face lies at distance `D` reports a distance in `(D, D + STEP]` and
/// strikes that wall.
pub proof fn lemma_axis_aligned_distance_north(m: Maze, o: Point, r: Intersect, wy: int)
    requires
        ray_result(m, o, 0, -TRIG_ONE as int, r),
        wy < cell_index(o.y as int),
        forall|cy: int|
            wy < cy <= cell_index(o.y as int) ==> #[trigger] m.cell_spec(
                cell_index(o.x as int),
                cy,
            ) != Cell::Wall,
        m.cell_spec(cell_index(o.x as int), wy) == Cell::Wall,
        o.y - (wy + 1) * CELL_SPAN < MAX_DISTANCE,
    ensures
        o.y - (wy + 1) * CELL_SPAN < r.distance <= o.y - (wy + 1) * CELL_SPAN + STEP,
        r.wall_x == cell_index(o.x as int),
        r.wall_y == wy,
{
    let (ox, oy) = (o.x as int, o.y as int);
    let js = lemma_backward_crossing(oy, wy);
    assert forall|j: int| 1 <= j < js implies !blocked(
        m,
        #[trigger] probe(ox, 0, j),
        probe(oy, -TRIG_ONE as int, j),
    ) by {
        assert(probe(oy, -TRIG_ONE as int, j) == oy - j * STEP);
        assert(probe(ox, 0, j) == ox);
        assert(cell_index(oy - j * STEP) > wy);
    }
    assert(probe(oy, -TRIG_ONE as int, js) == oy - js * STEP);
    assert(probe(ox, 0, js) == ox);
    lemma_stops_at(m, o, 0, -TRIG_ONE as int, r, js);
}

} // verus!
