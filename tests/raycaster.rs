use raycaster::grid::{Cell, Maze, CELL_SPAN, HEIGHT, WIDTH};
use raycaster::player::try_move;
use raycaster::probe::{check_collision, Point};
use raycaster::projector::{correct_distance, project_column, project_view, ray_angle, texture_column, wall_height};
use raycaster::ray::{cast_ray, march, MAX_DISTANCE, STEP};
use raycaster::trig::{SineTable, ANGLE_UNITS, TRIG_ONE};

fn table() -> SineTable {
    // The first quarter from f64, the rest by symmetry.
    let quarter = ANGLE_UNITS / 4;
    let mut v = vec![0i64; ANGLE_UNITS as usize];
    for i in 0..=quarter {
        let a = (i as f64) * std::f64::consts::PI * 2.0 / (ANGLE_UNITS as f64);
        v[i as usize] = (a.sin() * TRIG_ONE as f64).round() as i64;
    }
    for i in quarter + 1..2 * quarter {
        v[i as usize] = v[(2 * quarter - i) as usize];
    }
    for i in 2 * quarter..ANGLE_UNITS {
        v[i as usize] = -v[(i - 2 * quarter) as usize];
    }
    SineTable::from_values(v).unwrap()
}

/// An all-open grid with a wall border around the full 21x25 grid.
fn open_box() -> Maze {
    let mut rows: Vec<String> = Vec::new();
    for y in 0..HEIGHT {
        let mut s = String::new();
        for x in 0..WIDTH {
            if y == 0 || y == HEIGHT - 1 || x == 0 || x == WIDTH - 1 {
                s.push('#');
            } else {
                s.push(' ');
            }
        }
        rows.push(s);
    }
    let refs: Vec<&str> = rows.iter().map(|s| s.as_str()).collect();
    Maze::from_rows(&refs)
}

fn center(cx: i64, cy: i64) -> Point {
    Point { x: cx * CELL_SPAN + CELL_SPAN / 2, y: cy * CELL_SPAN + CELL_SPAN / 2 }
}

#[test]
fn hit_within_one_step_of_border_in_open_box() {
    let t = table();
    let m = open_box();
    let inner_lo = CELL_SPAN as f64;
    let inner_hi_x = ((WIDTH as i64 - 1) * CELL_SPAN) as f64;
    let inner_hi_y = ((HEIGHT as i64 - 1) * CELL_SPAN) as f64;
    for &(cx, cy) in &[(1i64, 1i64), (10, 12), (19, 23), (5, 20)] {
        let o = center(cx, cy);
        for angle in (0..ANGLE_UNITS).step_by(37) {
            let r = cast_ray(o, angle, &t, &m);
            // The probe's own direction: the table's cosine and sine, one step each.
            let (c, s) = (t.cos(angle) as f64, t.sin(angle) as f64);
            let len = (c * c + s * s).sqrt();
            let mut best = f64::INFINITY;
            if c > 0.0 {
                best = best.min((inner_hi_x - o.x as f64) / c);
            }
            if c < 0.0 {
                best = best.min((inner_lo - o.x as f64) / c);
            }
            if s > 0.0 {
                best = best.min((inner_hi_y - o.y as f64) / s);
            }
            if s < 0.0 {
                best = best.min((inner_lo - o.y as f64) / s);
            }
            // Euclidean distance to the border along the ray, and the distance the probe
            // actually travelled.
            let border = best * len;
            let steps = (r.distance / STEP) as f64;
            let travelled = steps * len;
            assert!(travelled <= border + len + 1e-6, "angle {}", angle);
            assert!(travelled >= border - 1e-6, "angle {}", angle);
        }
    }
}

#[test]
fn axis_aligned_distance_matches_known_wall() {
    let t = table();
    let m = open_box();
    // From the centre of cell (3, 5) due east to the border column 20.
    let o = center(3, 5);
    let d = 20 * CELL_SPAN - o.x;
    let r = cast_ray(o, 0, &t, &m);
    assert!(r.distance >= d && r.distance < d + STEP);
    assert_eq!(r.wall_x, 20);
    assert_eq!(r.wall_y, 5);
    // Due south (a quarter turn) to the border row 24.
    let r2 = cast_ray(o, 900, &t, &m);
    let d2 = 24 * CELL_SPAN - o.y;
    assert!(r2.distance >= d2 && r2.distance < d2 + STEP);
    assert_eq!((r2.wall_x, r2.wall_y), (3, 24));
}

#[test]
fn axis_aligned_distance_west_and_north() {
    let t = table();
    let m = open_box();
    let o = center(6, 9);
    // Due west to the border column 0, whose far face is at x = CELL_SPAN.
    let r = cast_ray(o, 1800, &t, &m);
    let d = o.x - CELL_SPAN;
    assert!(r.distance > d && r.distance <= d + STEP);
    assert_eq!((r.wall_x, r.wall_y), (0, 9));
    // Due north to the border row 0.
    let r2 = cast_ray(o, 2700, &t, &m);
    let d2 = o.y - CELL_SPAN;
    assert!(r2.distance > d2 && r2.distance <= d2 + STEP);
    assert_eq!((r2.wall_x, r2.wall_y), (6, 0));
}

#[test]
fn collecting_last_pellet_completes_level() {
    let mut m = Maze::from_rows(&vec!["#..", "#o#"]);
    assert_eq!(m.total_pellets(), 3);
    assert_eq!(m.collect_pellet(1, 0), Some(10));
    assert_eq!(m.collect_pellet(1, 1), Some(50));
    assert!(!m.is_level_complete());
    assert_eq!(m.get_cell(0, 0), Cell::Wall);
    assert_eq!(m.collect_pellet(2, 0), Some(10));
    assert_eq!(m.get_cell(2, 0), Cell::Path);
    assert!(m.is_level_complete());
}

#[test]
fn march_exact_steps() {
    let m = open_box();
    let o = Point { x: 19 * CELL_SPAN + CELL_SPAN - 3 * STEP, y: 2 * CELL_SPAN };
    let r = march(o, TRIG_ONE, 0, &m);
    assert_eq!(r.distance, 3 * STEP);
    assert_eq!(r.wall_x, 20);
    assert_eq!(r.wall_y, 2);
    assert_eq!(r.texture_coord, 0);
}

#[test]
fn texture_coordinate_in_unit_range() {
    let t = table();
    let m = Maze::new();
    for &(px, py) in &[(center(10, 15).x, center(10, 15).y), (CELL_SPAN + 7, CELL_SPAN + 911), (5 * CELL_SPAN + 77, 3 * CELL_SPAN + 12345)] {
        for angle in (0..ANGLE_UNITS).step_by(13) {
            let r = cast_ray(Point { x: px, y: py }, angle, &t, &m);
            assert!(r.texture_coord >= 0 && r.texture_coord < CELL_SPAN);
        }
    }
}

#[test]
fn texture_coordinate_uses_minor_axis_offset() {
    let m = open_box();
    // Hitting the east border: x offset into the cell is small, y offset picks the sample.
    let o = Point { x: 20 * CELL_SPAN - STEP / 2, y: 4 * CELL_SPAN + 1000 };
    let r = march(o, TRIG_ONE, 0, &m);
    assert_eq!(r.wall_x, 20);
    assert_eq!(r.texture_coord, 1000);
}

#[test]
fn fisheye_center_column_unchanged() {
    let t = table();
    for raw in [STEP, 7 * STEP, 12345, MAX_DISTANCE] {
        for h in [0i64, 450, 1799, 3599] {
            assert_eq!(correct_distance(&t, raw, h, h), raw);
        }
    }
    // Sixty degrees off the heading the distance halves.
    assert_eq!(correct_distance(&t, 4096, 600, 0), 2048);
    let m = Maze::new();
    let p = center(10, 15);
    let cols = project_view(&m, &t, p, 300, 600, 8, 800, 64);
    assert_eq!(cols.len(), 8);
    assert_eq!(cols[4].angle, 300);
    assert_eq!(cols[4].corrected, cols[4].hit.distance);
}

#[test]
fn column_angles_sweep_left_to_right() {
    assert_eq!(ray_angle(900, 600, 800, 0), 600);
    assert_eq!(ray_angle(900, 600, 800, 400), 900);
    assert_eq!(ray_angle(900, 600, 800, 799), 900 - 300 + 599);
    assert_eq!(ray_angle(0, 600, 4, 1), -150);
}

#[test]
fn wall_height_formula() {
    assert_eq!(wall_height(CELL_SPAN, 800), 800);
    assert_eq!(wall_height(2 * CELL_SPAN, 800), 400);
    assert_eq!(wall_height(3 * CELL_SPAN, 800), 266);
    assert_eq!(wall_height(1, 2), 2 * CELL_SPAN);
}

#[test]
fn texture_column_formula_and_clamp() {
    assert_eq!(texture_column(0, 64), 0);
    assert_eq!(texture_column(CELL_SPAN / 2, 64), 32);
    assert_eq!(texture_column(CELL_SPAN - 1, 64), 63);
    assert_eq!(texture_column(CELL_SPAN - 1, 1), 0);
}

#[test]
fn column_without_texture_has_no_sample() {
    let t = table();
    let m = Maze::new();
    let c = project_column(&m, &t, center(10, 15), 0, 600, 10, 5, 800, 0);
    assert!(c.texture_column.is_none());
    let c2 = project_column(&m, &t, center(10, 15), 0, 600, 10, 5, 800, 128);
    assert!(c2.texture_column.unwrap() < 128);
    assert_eq!(c.hit, c2.hit);
    assert_eq!(c2.wall_height, wall_height(c2.corrected.max(1), 800));
}

#[test]
fn outward_from_edge_stops_after_one_step() {
    let t = table();
    let m = open_box();
    // On the west edge of the grid, facing west.
    let o = Point { x: 100, y: center(0, 5).y };
    let r = cast_ray(o, 1800, &t, &m);
    assert_eq!(r.distance, STEP);
    assert_eq!(r.wall_x, -1);
    // Outside the grid to the east, facing east.
    let o2 = Point { x: 40 * CELL_SPAN, y: 3 * CELL_SPAN };
    let r2 = cast_ray(o2, 0, &t, &m);
    assert_eq!(r2.distance, STEP);
    assert!(r2.distance <= MAX_DISTANCE + STEP);
}

#[test]
fn grid_queries_outside_are_wall() {
    let m = Maze::new();
    assert_eq!(m.get_cell(WIDTH, 0), Cell::Wall);
    assert_eq!(m.get_cell(0, HEIGHT), Cell::Wall);
    assert_eq!(m.cell_at(-1, 3), Cell::Wall);
    assert!(check_collision(-1, CELL_SPAN + 5, &m));
    assert!(check_collision(WIDTH as i64 * CELL_SPAN, CELL_SPAN + 5, &m));
    assert!(!check_collision(center(1, 1).x, center(1, 1).y, &m));
    assert_eq!(m.get_cell(1, 1), Cell::Pellet);
    assert_eq!(m.get_cell(1, 2), Cell::PowerPellet);
    assert_eq!(m.get_cell(9, 15), Cell::Path);
    // Rows past the layout are wall.
    assert_eq!(m.get_cell(5, 22), Cell::Wall);
}

#[test]
fn permissive_layout_parsing() {
    let rows = vec!["#.o?", "x"];
    let m = Maze::from_rows(&rows);
    assert_eq!(m.get_cell(0, 0), Cell::Wall);
    assert_eq!(m.get_cell(1, 0), Cell::Pellet);
    assert_eq!(m.get_cell(2, 0), Cell::PowerPellet);
    assert_eq!(m.get_cell(3, 0), Cell::Path);
    assert_eq!(m.get_cell(0, 1), Cell::Path);
    assert_eq!(m.get_cell(1, 1), Cell::Wall);
    assert_eq!(m.get_cell(4, 0), Cell::Wall);
    assert_eq!(m.total_pellets(), 2);
    let long = "..........................................";
    let m2 = Maze::from_rows(&vec![long]);
    assert_eq!(m2.total_pellets(), WIDTH as u32);
}

#[test]
fn collect_pellet_once() {
    let mut m = Maze::new();
    assert_eq!(m.collect_pellet(1, 1), Some(10));
    assert_eq!(m.get_cell(1, 1), Cell::Path);
    assert_eq!(m.collect_pellet(1, 1), None);
    assert_eq!(m.collect_pellet(1, 2), Some(50));
    assert_eq!(m.collect_pellet(1, 2), None);
    assert_eq!(m.collect_pellet(0, 0), None);
    assert_eq!(m.collect_pellet(WIDTH, 3), None);
    assert_eq!(m.pellets_collected(), 2);
}

#[test]
fn level_completes_after_all_pellets() {
    let mut m = Maze::new();
    assert!(!m.is_level_complete());
    let mut cells = Vec::new();
    for y in 0..HEIGHT {
        for x in 0..WIDTH {
            cells.push((x, y));
        }
    }
    // A scrambled order.
    let n = cells.len();
    let mut order = Vec::new();
    for i in 0..n {
        order.push(cells[(i * 37) % n]);
    }
    let total = m.total_pellets();
    assert!(total > 0);
    let mut last = m.pellets_collected();
    for (x, y) in order {
        let before_done = m.is_level_complete();
        m.collect_pellet(x, y);
        assert!(m.pellets_collected() >= last);
        last = m.pellets_collected();
        if m.pellets_collected() < total {
            assert!(!m.is_level_complete());
        }
        assert!(!before_done || m.is_level_complete());
    }
    assert!(m.is_level_complete());
    assert_eq!(m.pellets_collected(), total);
}

#[test]
fn default_layout_pellet_total() {
    let m = Maze::new();
    let mut count = 0u32;
    for (y, row) in raycaster::grid::default_layout().iter().enumerate() {
        for (x, ch) in row.chars().enumerate() {
            if y < HEIGHT && x < WIDTH && (ch == '.' || ch == 'o') {
                count += 1;
            }
        }
    }
    assert_eq!(m.total_pellets(), count);
}

#[test]
fn mover_slides_along_wall() {
    let m = open_box();
    // Against the west border: moving west-south keeps x, moves y.
    let p = Point { x: CELL_SPAN + 100, y: center(1, 5).y };
    let r = try_move(p, -200, 300, &m);
    assert_eq!(r.x, p.x);
    assert_eq!(r.y, p.y + 300);
    // Against the south border: x moves, y stays.
    let q = Point { x: center(4, 23).x, y: 24 * CELL_SPAN - 10 };
    let r2 = try_move(q, 50, 20, &m);
    assert_eq!(r2, Point { x: q.x + 50, y: q.y });
    // Free diagonal move.
    let r3 = try_move(center(5, 5), 70, -80, &m);
    assert_eq!(r3, Point { x: center(5, 5).x + 70, y: center(5, 5).y - 80 });
}

#[test]
fn sine_table_rejects_unsound_values() {
    assert!(SineTable::from_values(vec![0; 10]).is_none());
    let zeros = vec![0i64; ANGLE_UNITS as usize];
    assert!(SineTable::from_values(zeros.clone()).is_none());
    // A quarter-turn spike alone breaks the half-turn sign change.
    let mut spike = zeros.clone();
    spike[900] = TRIG_ONE;
    assert!(SineTable::from_values(spike.clone()).is_none());
    spike[2700] = -TRIG_ONE;
    assert!(SineTable::from_values(spike.clone()).is_some());
    // Out of range.
    let mut big = spike.clone();
    big[5] = TRIG_ONE + 1;
    assert!(SineTable::from_values(big).is_none());
    // Not rising over the first quarter.
    let mut dip = spike.clone();
    dip[10] = 5;
    dip[1790] = 5;
    dip[1810] = -5;
    dip[3590] = -5;
    assert!(SineTable::from_values(dip).is_none());
    // Not symmetric about the quarter turn.
    let mut skew = spike.clone();
    skew[1000] = 7;
    skew[2800] = -7;
    assert!(SineTable::from_values(skew).is_none());
    let t = table();
    assert_eq!(t.cos(0), TRIG_ONE);
    assert_eq!(t.sin(900), TRIG_ONE);
    assert_eq!(t.cos(1800), -TRIG_ONE);
    assert_eq!(t.sin(-900), -TRIG_ONE);
    assert_eq!(t.sin(1800), 0);
    assert_eq!(t.sin(1800 + 123), -t.sin(123));
}
