use vstd::prelude::*;
use crate::arith::floor_div;
use crate::grid::{Maze, CELL_SPAN};
use crate::probe::Point;
use crate::ray::{cast_ray, ray_result, Intersect, MAX_DISTANCE, POS_LIMIT, STEP};
use crate::trig::{SineTable, ANGLE_UNITS, TRIG_ONE};

verus! {

/// Largest column count, viewport height or texture width the projector accepts.
pub const MAX_SCREEN: i64 = 1048576;

/// Smallest corrected distance used to size a wall strip, in sub-units.
pub const MIN_DISTANCE: i64 = 1;

/// One vertical strip of the view.
#[derive(Clone, Copy, Debug, PartialEq, Eq, Structural)]
pub struct Column {
    /// The raw hit.
    pub hit: Intersect,
    /// The angle of this column's ray.
    pub angle: i64,
    /// The hit distance with the fisheye effect removed.
    pub corrected: i64,
    /// On-screen height of the wall strip, in pixels.
    pub wall_height: i64,
    /// The texture column to sample, when a texture is at hand.
    pub texture_column: Option<i64>,
}

/// The angle of column `c` of `n`: a linear sweep from `heading - fov/2` to the right.
pub open spec fn ray_angle_spec(heading: int, fov: int, n: int, c: int) -> int {
    heading - fov / 2 + (fov * c) / n
}

/// The hit distance corrected for the fisheye effect: scaled by the cosine of the
/// angle between the heading and the ray.
pub open spec fn corrected_spec(t: SineTable, raw: int, heading: int, ray: int) -> int {
    (raw * t.cos_spec(heading - ray)) / (TRIG_ONE as int)
}

/// Inverse-distance perspective: the on-screen height of a wall at distance `d`.
pub open spec fn wall_height_spec(d: int, viewport_height: int) -> int {
    (CELL_SPAN * viewport_height) / d
}

/// The texture column for sample coordinate `tex`, clamped to the texture.
pub open spec fn texture_column_spec(tex: int, width: int) -> int {
    let c = (tex * width) / (CELL_SPAN as int);
    if c > width - 1 {
        width - 1
    } else {
        c
    }
}

pub open spec fn view_params_ok(heading: int, fov: int, n: int) -> bool {
    &&& 0 <= heading < ANGLE_UNITS
    &&& 0 <= fov <= ANGLE_UNITS
    &&& 1 <= n <= MAX_SCREEN
}

/// The angle of column `c` of `n`, for a view of width `fov` around `heading`.
pub fn ray_angle(heading: i64, fov: i64, n: i64, c: i64) -> (r: i64)
    requires
        view_params_ok(heading as int, fov as int, n as int),
        0 <= c < n,
    ensures
        r as int == ray_angle_spec(heading as int, fov as int, n as int, c as int),
        -ANGLE_UNITS <= r <= 2 * ANGLE_UNITS,
{
    proof {
        assert(0 <= fov * c <= fov * n) by (nonlinear_arith)
            requires
                0 <= c < n,
                0 <= fov,
        ;
        assert(fov * n <= ANGLE_UNITS * MAX_SCREEN) by (nonlinear_arith)
            requires
                0 <= fov <= ANGLE_UNITS,
                1 <= n <= MAX_SCREEN,
        ;
        vstd::arithmetic::div_mod::lemma_div_is_ordered(fov * c, fov * n, n as int);
        vstd::arithmetic::div_mod::lemma_div_by_multiple(fov as int, n as int);
        vstd::arithmetic::div_mod::lemma_div_pos_is_pos(fov * c, n as int);
    }
    heading - fov / 2 + (fov * c) / n
}

/// The fisheye-corrected distance of a hit at distance `raw` on a ray at angle `ray`.
/// Along the heading itself the distance is unchanged.
pub fn correct_distance(t: &SineTable, raw: i64, heading: i64, ray: i64) -> (r: i64)
    requires
        t.wf(),
        0 <= raw <= MAX_DISTANCE + STEP,
        -4 * ANGLE_UNITS <= heading <= 4 * ANGLE_UNITS,
        -4 * ANGLE_UNITS <= ray <= 4 * ANGLE_UNITS,
    ensures
        r as int == corrected_spec(*t, raw as int, heading as int, ray as int),
        heading == ray ==> r == raw,
        -raw <= r <= raw,
{
    let c = t.cos(heading - ray);
    proof {
        assert(-raw * TRIG_ONE <= raw * c <= raw * TRIG_ONE) by (nonlinear_arith)
            requires
                0 <= raw,
                -TRIG_ONE <= c <= TRIG_ONE,
        ;
        vstd::arithmetic::div_mod::lemma_div_is_ordered(raw * c, raw * TRIG_ONE, TRIG_ONE as int);
        vstd::arithmetic::div_mod::lemma_div_is_ordered(-raw * TRIG_ONE, raw * c, TRIG_ONE as int);
        vstd::arithmetic::div_mod::lemma_div_by_multiple(raw as int, TRIG_ONE as int);
        vstd::arithmetic::div_mod::lemma_fundamental_div_mod_converse_div(
            -raw * TRIG_ONE,
            TRIG_ONE as int,
            -raw as int,
            0,
        );
        assert(-raw * TRIG_ONE == (-raw) * TRIG_ONE);
        if heading == ray {
            t.lemma_axis_values();
            assert(heading - ray == 0);
        }
    }
    floor_div(raw * c, TRIG_ONE)
}

/// The on-screen height of a wall at corrected distance `d`.
pub fn wall_height(d: i64, viewport_height: i64) -> (r: i64)
    requires
        1 <= d,
        0 <= viewport_height <= MAX_SCREEN,
    ensures
        r as int == wall_height_spec(d as int, viewport_height as int),
        0 <= r <= CELL_SPAN * viewport_height,
{
    proof {
        assert(0 <= CELL_SPAN * viewport_height <= CELL_SPAN * MAX_SCREEN) by (nonlinear_arith)
            requires
                0 <= viewport_height <= MAX_SCREEN,
        ;
        vstd::arithmetic::div_mod::lemma_div_is_ordered_by_denominator(
            CELL_SPAN * viewport_height,
            1,
            d as int,
        );
        vstd::arithmetic::div_mod::lemma_div_pos_is_pos(CELL_SPAN * viewport_height, d as int);
    }
    (CELL_SPAN * viewport_height) / d
}

/// The texture column for sample coordinate `tex` on a texture `width` pixels wide.
pub fn texture_column(tex: i64, width: i64) -> (r: i64)
    requires
        0 <= tex < CELL_SPAN,
        1 <= width <= MAX_SCREEN,
    ensures
        r as int == texture_column_spec(tex as int, width as int),
        0 <= r < width,
{
    proof {
        assert(0 <= tex * width <= CELL_SPAN * MAX_SCREEN) by (nonlinear_arith)
            requires
                0 <= tex < CELL_SPAN,
                1 <= width <= MAX_SCREEN,
        ;
        vstd::arithmetic::div_mod::lemma_div_pos_is_pos(tex * width, CELL_SPAN as int);
    }
    let c = (tex * width) / CELL_SPAN;
    if c > width - 1 {
        width - 1
    } else {
        c
    }
}

/// `col` is column `c` of `n` of the view from `origin` facing `heading`.
pub open spec fn column_result(
    m: Maze,
    t: SineTable,
    origin: Point,
    heading: int,
    fov: int,
    n: int,
    c: int,
    viewport_height: int,
    texture_width: int,
    col: Column,
) -> bool {
    let a = ray_angle_spec(heading, fov, n, c);
    let d = corrected_spec(t, col.hit.distance as int, heading, a);
    &&& col.angle == a
    &&& ray_result(m, origin, t.cos_spec(a), t.sin_spec(a), col.hit)
    &&& col.corrected == d
    &&& col.wall_height == wall_height_spec(
        if d < MIN_DISTANCE {
            MIN_DISTANCE as int
        } else {
            d
        },
        viewport_height,
    )
    &&& if texture_width >= 1 {
        &&& col.texture_column.is_some()
        &&& col.texture_column.unwrap() == texture_column_spec(
            col.hit.texture_coord as int,
            texture_width,
        )
    } else {
        col.texture_column.is_none()
    }
}

pub open spec fn screen_ok(viewport_height: int, texture_width: int) -> bool {
    &&& 0 <= viewport_height <= MAX_SCREEN
    &&& texture_width <= MAX_SCREEN
}

/// Casts the ray of column `c` of `n` and projects it. A texture width below one
/// means that no texture is at hand.
pub fn project_column(
    maze: &Maze,
    t: &SineTable,
    origin: Point,
    heading: i64,
    fov: i64,
    n: i64,
    c: i64,
    viewport_height: i64,
    texture_width: i64,
) -> (col: Column)
    requires
        maze.wf(),
        t.wf(),
        -POS_LIMIT <= origin.x <= POS_LIMIT,
        -POS_LIMIT <= origin.y <= POS_LIMIT,
        view_params_ok(heading as int, fov as int, n as int),
        0 <= c < n,
        screen_ok(viewport_height as int, texture_width as int),
    ensures
        column_result(
            *maze,
            *t,
            origin,
            heading as int,
            fov as int,
            n as int,
            c as int,
            viewport_height as int,
            texture_width as int,
            col,
        ),
{
    let angle = ray_angle(heading, fov, n, c);
    let hit = cast_ray(origin, angle, t, maze);
    let corrected = correct_distance(t, hit.distance, heading, angle);
    let clamped = if corrected < MIN_DISTANCE {
        MIN_DISTANCE
    } else {
        corrected
    };
    let h = wall_height(clamped, viewport_height);
    let texture_column = if texture_width >= 1 {
        Some(texture_column(hit.texture_coord, texture_width))
    } else {
        None
    };
    Column { hit, angle, corrected, wall_height: h, texture_column }
}

/// Projects the whole view: one column per ray, left to right.
pub fn project_view(
    maze: &Maze,
    t: &SineTable,
    origin: Point,
    heading: i64,
    fov: i64,
    n: i64,
    viewport_height: i64,
    texture_width: i64,
) -> (cols: Vec<Column>)
    requires
        maze.wf(),
        t.wf(),
        -POS_LIMIT <= origin.x <= POS_LIMIT,
        -POS_LIMIT <= origin.y <= POS_LIMIT,
        view_params_ok(heading as int, fov as int, n as int),
        screen_ok(viewport_height as int, texture_width as int),
    ensures
        cols@.len() == n,
        forall|c: int|
            0 <= c < n ==> column_result(
                *maze,
                *t,
                origin,
                heading as int,
                fov as int,
                n as int,
                c,
                viewport_height as int,
                texture_width as int,
                #[trigger] cols@[c],
            ),
{
    let mut cols: Vec<Column> = Vec::new();
    let mut c: i64 = 0;
    while c < n
        invariant
            maze.wf(),
            t.wf(),
            -POS_LIMIT <= origin.x <= POS_LIMIT,
            -POS_LIMIT <= origin.y <= POS_LIMIT,
            view_params_ok(heading as int, fov as int, n as int),
            screen_ok(viewport_height as int, texture_width as int),
            0 <= c <= n,
            cols@.len() == c,
            forall|i: int|
                0 <= i < c ==> column_result(
                    *maze,
                    *t,
                    origin,
                    heading as int,
                    fov as int,
                    n as int,
                    i,
                    viewport_height as int,
                    texture_width as int,
                    #[trigger] cols@[i],
                ),
        decreases n - c,
    {
        let col = project_column(maze, t, origin, heading, fov, n, c, viewport_height, texture_width);
        cols.push(col);
        c = c + 1;
    }
    cols
}

/// With an even column count, the middle column looks straight along the heading, and
/// its corrected distance is the raw hit distance.
pub proof fn lemma_center_column_uncorrected(
    m: Maze,
    t: SineTable,
    origin: Point,
    heading: int,
    fov: int,
    n: int,
    viewport_height: int,
    texture_width: int,
    col: Column,
)
    requires
        t.wf(),
        view_params_ok(heading, fov, n),
        n % 2 == 0,
        column_result(m, t, origin, heading, fov, n, n / 2, viewport_height, texture_width, col),
    ensures
        col.angle == heading,
        col.corrected == col.hit.distance,
{
    let h = n / 2;
    assert(n == h * 2);
    assert(fov * h >= 0) by (nonlinear_arith)
        requires
            fov >= 0,
            h >= 1,
    ;
    vstd::arithmetic::div_mod::lemma_div_denominator(fov * h, h, 2);
    vstd::arithmetic::div_mod::lemma_div_by_multiple(fov, h);
    assert(fov * h == h * fov) by (nonlinear_arith);
    assert(h * 2 == n);
    assert((fov * h) / n == fov / 2);
    assert(ray_angle_spec(heading, fov, n, h) == heading);
    t.lemma_axis_values();
    assert(heading - heading == 0);
    let raw = col.hit.distance as int;
    vstd::arithmetic::div_mod::lemma_div_by_multiple(raw, TRIG_ONE as int);
}

} // verus!
