//! The ray-casting renderer: intersection solver, column projector and view
//! orchestrator.
//!
//! A ray from the camera cell is resolved into two independent
//! one-dimensional marches: one along successive horizontal grid lines and
//! one along successive vertical grid lines. Each march either finds the
//! nearest occupied cell on its family of lines or abstains; the combined
//! result takes the closer hit, ties favouring the horizontal march. All
//! geometry is fixed-point: coordinates in projection units (pixels), slopes
//! scaled by 256 from the lookup tables.

use crate::fb::spec_pixel_at;
use crate::fb::Framebuffer;
use crate::grid::spec_border_occupied;
use crate::grid::spec_cells_wf;
use crate::grid::Grid;
use crate::heading::Direction;
use crate::trig::spec_cot_fp;
use crate::trig::spec_tan_fp;
use crate::trig::TrigTables;
use vstd::prelude::*;

verus! {

/// Which family of grid lines a march intersects.
#[derive(Clone, Copy, Debug, PartialEq, Eq, Structural)]
pub enum IntersectionKind {
    HorizontalGrid,
    VerticalGrid,
}

/// A ray hit: which march produced it, the squared Euclidean distance from
/// the ray origin to the hit point in projection units, and the colour of
/// the struck cell. Produced fresh per ray; never persisted.
#[derive(Clone, Copy, Debug, PartialEq, Eq, Structural)]
pub struct Intersection {
    pub kind: IntersectionKind,
    pub dist_sq: u32,
    pub colour: u8,
}

/// The ray origin's x in projection units: on the near face of the camera's
/// own cell in the direction of travel for East/West, else the cell middle.
pub open spec fn spec_px(origin: (usize, usize), dir: Direction) -> int {
    match dir {
        Direction::East => 4 * origin.1 + 4,
        Direction::West => 4 * origin.1,
        _ => 4 * origin.1 + 2,
    }
}

/// The ray origin's y in projection units: on the near face of the camera's
/// own cell for North/South, else the cell middle.
pub open spec fn spec_py(origin: (usize, usize), dir: Direction) -> int {
    match dir {
        Direction::North => 4 * origin.0,
        Direction::South => 4 * origin.0 + 4,
        _ => 4 * origin.0 + 2,
    }
}

/// Squared Euclidean distance between the ray origin and a hit point.
pub open spec fn spec_dist_sq(px: int, py: int, hx: int, hy: int) -> int {
    (px - hx) * (px - hx) + (py - hy) * (py - hy)
}

/// One march: step from (ax, ay) by (dx, dy) until the sample point leaves
/// the 160x160 projection area or lands in an occupied cell, whichever
/// first. The fuel only serves termination; 41 steps always suffice, since
/// one of the two steps is exactly a cell side of 4 units.
pub open spec fn spec_march(
    cells: Seq<Option<u8>>,
    ax: int,
    ay: int,
    dx: int,
    dy: int,
    fuel: nat,
) -> Option<(int, int, u8)>
    decreases fuel,
{
    if fuel == 0 {
        None
    } else if !(0 <= ax < 160 && 0 <= ay < 160) {
        None
    } else {
        match cells[40 * (ay / 4) + ax / 4] {
            Some(c) => Some((ax, ay, c)),
            None => spec_march(cells, ax + dx, ay + dy, dx, dy, (fuel - 1) as nat),
        }
    }
}

/// The horizontal-line march for angle unit `a`: abstains at the degenerate
/// angles 0 and half turn where the ray never crosses a horizontal line,
/// else steps one cell side in y per move and the floored cotangent in x.
pub open spec fn spec_h_find(
    cells: Seq<Option<u8>>,
    tq: Seq<i32>,
    origin: (usize, usize),
    a: int,
    dir: Direction,
) -> Option<(int, int, u8)> {
    if a == 0 || a == 960 {
        None
    } else {
        let px = spec_px(origin, dir);
        let py = spec_py(origin, dir);
        let ay0 = if a > 960 {
            4 * origin.0 + 4
        } else {
            4 * origin.0 - 1
        };
        let cot = spec_cot_fp(tq, a);
        let ax0 = px + (py - ay0) * cot / 256;
        if ax0 < 0 {
            None
        } else {
            spec_march(
                cells,
                ax0,
                ay0,
                4 * cot / 256,
                if a > 960 {
                    4
                } else {
                    -4
                },
                41,
            )
        }
    }
}

/// The vertical-line march for angle unit `a`: abstains at the degenerate
/// angles quarter and three-quarter turn where the tangent diverges, else
/// steps one cell side in x per move and the floored tangent in y.
pub open spec fn spec_v_find(
    cells: Seq<Option<u8>>,
    tq: Seq<i32>,
    origin: (usize, usize),
    a: int,
    dir: Direction,
) -> Option<(int, int, u8)> {
    if a == 480 || a == 1440 {
        None
    } else {
        let px = spec_px(origin, dir);
        let py = spec_py(origin, dir);
        let ax0 = if 480 <= a <= 1440 {
            4 * origin.1 - 1
        } else {
            4 * origin.1 + 4
        };
        let tn = spec_tan_fp(tq, a);
        let ay0 = py + (px - ax0) * tn / 256;
        if ay0 < 0 {
            None
        } else {
            spec_march(
                cells,
                ax0,
                ay0,
                if 480 <= a <= 1440 {
                    -4
                } else {
                    4
                },
                4 * tn / 256,
                41,
            )
        }
    }
}

/// The horizontal march's hit as an intersection record.
pub open spec fn spec_h_intersection(
    cells: Seq<Option<u8>>,
    tq: Seq<i32>,
    origin: (usize, usize),
    a: int,
    dir: Direction,
) -> Option<Intersection> {
    match spec_h_find(cells, tq, origin, a, dir) {
        None => None,
        Some(h) => Some(
            Intersection {
                kind: IntersectionKind::HorizontalGrid,
                dist_sq: spec_dist_sq(
                    spec_px(origin, dir),
                    spec_py(origin, dir),
                    h.0,
                    h.1,
                ) as u32,
                colour: h.2,
            },
        ),
    }
}

/// The vertical march's hit as an intersection record.
pub open spec fn spec_v_intersection(
    cells: Seq<Option<u8>>,
    tq: Seq<i32>,
    origin: (usize, usize),
    a: int,
    dir: Direction,
) -> Option<Intersection> {
    match spec_v_find(cells, tq, origin, a, dir) {
        None => None,
        Some(h) => Some(
            Intersection {
                kind: IntersectionKind::VerticalGrid,
                dist_sq: spec_dist_sq(
                    spec_px(origin, dir),
                    spec_py(origin, dir),
                    h.0,
                    h.1,
                ) as u32,
                colour: h.2,
            },
        ),
    }
}

/// The combined nearest intersection: the march with the smaller squared
/// distance wins, and an exact tie favours the horizontal march.
pub open spec fn spec_find_intersection(
    cells: Seq<Option<u8>>,
    tq: Seq<i32>,
    origin: (usize, usize),
    a: int,
    dir: Direction,
) -> Option<Intersection> {
    let h = spec_h_intersection(cells, tq, origin, a, dir);
    let v = spec_v_intersection(cells, tq, origin, a, dir);
    match (h, v) {
        (None, None) => None,
        (Some(hi), None) => Some(hi),
        (None, Some(vi)) => Some(vi),
        (Some(hi), Some(vi)) => if hi.dist_sq <= vi.dist_sq {
            Some(hi)
        } else {
            Some(vi)
        },
    }
}

/// Floor division by 256, also for negative numerators.
fn div_floor_256(x: i64) -> (r: i64)
    requires
        -0x4000_0000_0000 < x < 0x4000_0000_0000,
    ensures
        r == x as int / 256,
        256 * r <= x < 256 * r + 256,
{
    if x >= 0 {
        proof {
            vstd::arithmetic::div_mod::lemma_fundamental_div_mod(x as int, 256);
        }
        x / 256
    } else {
        let n = -x;
        let d = (n + 255) / 256;
        proof {
            vstd::arithmetic::div_mod::lemma_fundamental_div_mod_converse(
                x as int,
                256,
                -d as int,
                x as int + 256 * (d as int),
            );
        }
        -d
    }
}

/// Walk one march: sample points start at (ax0, ay0) and advance by
/// (dx, dy); stop at the first occupied cell or on leaving the projection
/// area. One of the two steps is always exactly one cell side.
fn march(grid: &Grid, ax0: i64, ay0: i64, dx: i64, dy: i64) -> (r: Option<(usize, usize, u8)>)
    requires
        grid.wf(),
        dx == 4 || dx == -4 || dy == 4 || dy == -4,
        -100000 < ax0 < 100000,
        -100000 < ay0 < 100000,
        -100000 < dx < 100000,
        -100000 < dy < 100000,
    ensures
        spec_march(grid@, ax0 as int, ay0 as int, dx as int, dy as int, 41) == (match r {
            None => None::<(int, int, u8)>,
            Some(h) => Some((h.0 as int, h.1 as int, h.2)),
        }),
        r matches Some(h) ==> h.0 < 160 && h.1 < 160 && h.2 < 4,
{
    let mut ax = ax0;
    let mut ay = ay0;
    let ghost mut k: int = 0;
    loop
        invariant
            grid.wf(),
            dx == 4 || dx == -4 || dy == 4 || dy == -4,
            -100000 < dx < 100000,
            -100000 < dy < 100000,
            -100000 < ax0 < 100000,
            -100000 < ay0 < 100000,
            0 <= k <= 40,
            ax == ax0 + k * dx,
            ay == ay0 + k * dy,
            -10000000 < ax < 10000000,
            -10000000 < ay < 10000000,
            k >= 1 ==> 0 <= ax0 < 160 && 0 <= ay0 < 160,
            spec_march(grid@, ax as int, ay as int, dx as int, dy as int, (41 - k) as nat)
                == spec_march(grid@, ax0 as int, ay0 as int, dx as int, dy as int, 41),
        decreases 41 - k,
    {
        if !(0 <= ax && ax < 160 && 0 <= ay && ay < 160) {
            proof {
                assert(spec_march(grid@, ax as int, ay as int, dx as int, dy as int, (41 - k) as nat)
                    is None);
            }
            return None;
        }
        proof {
            // A coordinate stepping by a full cell side stays within the
            // projection area for at most 40 steps.
            if k >= 1 {
                if dy == 4 || dy == -4 {
                    assert(k <= 39) by (nonlinear_arith)
                        requires
                            ay == ay0 + k * dy,
                            dy == 4 || dy == -4,
                            0 <= ay < 160,
                            0 <= ay0 < 160,
                            k >= 1,
                    ;
                } else {
                    assert(k <= 39) by (nonlinear_arith)
                        requires
                            ax == ax0 + k * dx,
                            dx == 4 || dx == -4,
                            0 <= ax < 160,
                            0 <= ax0 < 160,
                            k >= 1,
                    ;
                }
            }
        }
        let gx = (ax / 4) as usize;
        let gy = (ay / 4) as usize;
        let cell = grid.cell_at(gy, gx);
        match cell {
            Some(c) => {
                proof {
                    assert(spec_march(
                        grid@,
                        ax as int,
                        ay as int,
                        dx as int,
                        dy as int,
                        (41 - k) as nat,
                    ) == Some((ax as int, ay as int, c)));
                }
                return Some((ax as usize, ay as usize, c));
            },
            None => {
                proof {
                    assert(spec_march(
                        grid@,
                        ax as int,
                        ay as int,
                        dx as int,
                        dy as int,
                        (41 - k) as nat,
                    ) == spec_march(
                        grid@,
                        ax + dx as int,
                        ay + dy as int,
                        dx as int,
                        dy as int,
                        (41 - k - 1) as nat,
                    ));
                }
                proof {
                    assert(ax + dx == ax0 + (k + 1) * dx && -10000000 < ax + dx < 10000000)
                        by (nonlinear_arith)
                        requires
                            ax == ax0 + k * dx,
                            0 <= k <= 39,
                            -100000 < ax0 < 100000,
                            -100000 < dx < 100000,
                    ;
                    assert(ay + dy == ay0 + (k + 1) * dy && -10000000 < ay + dy < 10000000)
                        by (nonlinear_arith)
                        requires
                            ay == ay0 + k * dy,
                            0 <= k <= 39,
                            -100000 < ay0 < 100000,
                            -100000 < dy < 100000,
                    ;
                }
                ax = ax + dx;
                ay = ay + dy;
                proof {
                    k = k + 1;
                }
            },
        }
    }
}

/// Find the nearest occupied cell along horizontal grid lines, or abstain
/// when the ray is exactly horizontal or starts left of the area.
pub fn find_horizontal_intersection(
    grid: &Grid,
    tables: &TrigTables,
    grid_origin: (usize, usize),
    angle_num: usize,
    dir: Direction,
) -> (r: Option<Intersection>)
    requires
        grid.wf(),
        tables.wf(),
        grid_origin.0 < 40,
        grid_origin.1 < 40,
        angle_num < 1920,
    ensures
        r == spec_h_intersection(grid@, tables.tan_q@, grid_origin, angle_num as int, dir),
        r matches Some(i) ==> i.colour < 4 && i.kind == IntersectionKind::HorizontalGrid,
{
    let px: i64 = match dir {
        Direction::East => (grid_origin.1 * 4 + 4) as i64,
        Direction::West => (grid_origin.1 * 4) as i64,
        _ => (grid_origin.1 * 4 + 2) as i64,
    };
    let py: i64 = match dir {
        Direction::North => (grid_origin.0 * 4) as i64,
        Direction::South => (grid_origin.0 * 4 + 4) as i64,
        _ => (grid_origin.0 * 4 + 2) as i64,
    };
    if angle_num == 0 || angle_num == 960 {
        return None;
    }
    let ay0: i64 = if angle_num > 960 {
        (grid_origin.0 * 4 + 4) as i64
    } else {
        (grid_origin.0 * 4) as i64 - 1
    };
    let cot = tables.cot_fp(angle_num) as i64;
    proof {
        assert(-21800000 < (py - ay0) * cot < 21800000) by (nonlinear_arith)
            requires
                -166 <= py - ay0 <= 166,
                -131073 < cot < 131073,
        ;
    }
    let ax0: i64 = px + div_floor_256((py - ay0) * cot);
    if ax0 < 0 {
        return None;
    }
    let xa = div_floor_256(4 * cot);
    let yd: i64 = if angle_num > 960 {
        4
    } else {
        -4
    };
    match march(grid, ax0, ay0, xa, yd) {
        None => None,
        Some((hx, hy, c)) => {
            let ddx: i64 = px - hx as i64;
            let ddy: i64 = py - hy as i64;
            proof {
                assert(0 <= ddx * ddx < 50000 && 0 <= ddy * ddy < 50000) by (nonlinear_arith)
                    requires
                        -200 < ddx < 200,
                        -200 < ddy < 200,
                ;
            }
            let dsq: u32 = (ddx * ddx + ddy * ddy) as u32;
            Some(Intersection { kind: IntersectionKind::HorizontalGrid, dist_sq: dsq, colour: c })
        },
    }
}

/// Find the nearest occupied cell along vertical grid lines, or abstain
/// when the tangent diverges or the ray starts above the area.
pub fn find_vertical_intersection(
    grid: &Grid,
    tables: &TrigTables,
    grid_origin: (usize, usize),
    angle_num: usize,
    dir: Direction,
) -> (r: Option<Intersection>)
    requires
        grid.wf(),
        tables.wf(),
        grid_origin.0 < 40,
        grid_origin.1 < 40,
        angle_num < 1920,
    ensures
        r == spec_v_intersection(grid@, tables.tan_q@, grid_origin, angle_num as int, dir),
        r matches Some(i) ==> i.colour < 4 && i.kind == IntersectionKind::VerticalGrid,
{
    let px: i64 = match dir {
        Direction::East => (grid_origin.1 * 4 + 4) as i64,
        Direction::West => (grid_origin.1 * 4) as i64,
        _ => (grid_origin.1 * 4 + 2) as i64,
    };
    let py: i64 = match dir {
        Direction::North => (grid_origin.0 * 4) as i64,
        Direction::South => (grid_origin.0 * 4 + 4) as i64,
        _ => (grid_origin.0 * 4 + 2) as i64,
    };
    let ax0: i64 = if 480 <= angle_num && angle_num <= 1440 {
        (grid_origin.1 * 4) as i64 - 1
    } else {
        (grid_origin.1 * 4 + 4) as i64
    };
    if angle_num == 480 || angle_num == 1440 {
        return None;
    }
    let tn = tables.tan_fp(angle_num) as i64;
    proof {
        assert(-21800000 < (px - ax0) * tn < 21800000) by (nonlinear_arith)
            requires
                -166 <= px - ax0 <= 166,
                -131073 < tn < 131073,
        ;
    }
    let ay0: i64 = py + div_floor_256((px - ax0) * tn);
    if ay0 < 0 {
        return None;
    }
    let ya = div_floor_256(4 * tn);
    let xd: i64 = if 480 <= angle_num && angle_num <= 1440 {
        -4
    } else {
        4
    };
    match march(grid, ax0, ay0, xd, ya) {
        None => None,
        Some((hx, hy, c)) => {
            let ddx: i64 = px - hx as i64;
            let ddy: i64 = py - hy as i64;
            proof {
                assert(0 <= ddx * ddx < 50000 && 0 <= ddy * ddy < 50000) by (nonlinear_arith)
                    requires
                        -200 < ddx < 200,
                        -200 < ddy < 200,
                ;
            }
            let dsq: u32 = (ddx * ddx + ddy * ddy) as u32;
            Some(Intersection { kind: IntersectionKind::VerticalGrid, dist_sq: dsq, colour: c })
        },
    }
}

/// Resolve a ray into both marches and keep the nearer hit; an exact tie
/// favours the horizontal march. Returns nothing only when both marches
/// abstain or exhaust the area, which a solid grid border rules out.
pub fn find_intersection(
    grid: &Grid,
    tables: &TrigTables,
    grid_origin: (usize, usize),
    angle_num: usize,
    dir: Direction,
) -> (r: Option<Intersection>)
    requires
        grid.wf(),
        tables.wf(),
        grid_origin.0 < 40,
        grid_origin.1 < 40,
        angle_num < 1920,
    ensures
        r == spec_find_intersection(grid@, tables.tan_q@, grid_origin, angle_num as int, dir),
        r matches Some(i) ==> i.colour < 4,
{
    let h = find_horizontal_intersection(grid, tables, grid_origin, angle_num, dir);
    let v = find_vertical_intersection(grid, tables, grid_origin, angle_num, dir);
    match (h, v) {
        (None, None) => None,
        (Some(hi), None) => Some(hi),
        (None, Some(vi)) => Some(vi),
        (Some(hi), Some(vi)) => if hi.dist_sq <= vi.dist_sq {
            Some(hi)
        } else {
            Some(vi)
        },
    }
}

/// Integer square root, rounded down.
pub open spec fn spec_sqrt_floor(n: int) -> int
    decreases n,
{
    if n <= 0 {
        0
    } else {
        let r = spec_sqrt_floor(n - 1);
        if (r + 1) * (r + 1) <= n {
            r + 1
        } else {
            r
        }
    }
}

/// The rounded-down square root is the unique non-negative integer whose
/// square is at most `n` while the next square exceeds it.
pub proof fn lemma_sqrt_floor_bounds(n: int)
    requires
        n >= 0,
    ensures
        0 <= spec_sqrt_floor(n),
        spec_sqrt_floor(n) * spec_sqrt_floor(n) <= n,
        n < (spec_sqrt_floor(n) + 1) * (spec_sqrt_floor(n) + 1),
    decreases n,
{
    if n > 0 {
        lemma_sqrt_floor_bounds(n - 1);
        let r = spec_sqrt_floor(n - 1);
        if (r + 1) * (r + 1) <= n {
            assert(n < (r + 2) * (r + 2)) by (nonlinear_arith)
                requires
                    n - 1 < (r + 1) * (r + 1),
                    r >= 0,
            ;
        }
    }
}

/// Any integer between two consecutive squares pins the rounded-down root.
pub proof fn lemma_sqrt_floor_unique(n: int, r: int)
    requires
        n >= 0,
        r >= 0,
        r * r <= n,
        n < (r + 1) * (r + 1),
    ensures
        r == spec_sqrt_floor(n),
{
    lemma_sqrt_floor_bounds(n);
    let s = spec_sqrt_floor(n);
    assert(r == s) by (nonlinear_arith)
        requires
            r >= 0,
            s >= 0,
            r * r <= n,
            n < (r + 1) * (r + 1),
            s * s <= n,
            n < (s + 1) * (s + 1),
    ;
}

/// Integer square root of a squared distance, rounded down.
pub fn isqrt(n: u32) -> (r: u32)
    ensures
        r as int == spec_sqrt_floor(n as int),
        r * r <= n,
        n < (r + 1) * (r + 1),
{
    let mut r: u32 = 0;
    loop
        invariant_except_break
            0 <= r <= 65535,
            (r as int) * (r as int) <= n as int,
        ensures
            (r as int) * (r as int) <= n as int,
            n < (r as int + 1) * (r as int + 1),
        decreases n as int - (r as int) * (r as int),
    {
        let t: u64 = (r as u64) + 1;
        proof {
            assert(t * t < 0x1_0000_0000_0000) by (nonlinear_arith)
                requires
                    t <= 65536,
            ;
        }
        if !(t * t <= n as u64) {
            break;
        }
        proof {
            assert((r as int + 1) <= 65535 && (r as int) * (r as int) < (r as int + 1) * (r as int
                + 1)) by (nonlinear_arith)
                requires
                    0 <= r as int,
                    (r as int + 1) * (r as int + 1) <= n as int,
                    n < 0x1_0000_0000,
            ;
        }
        r = r + 1;
    }
    proof {
        lemma_sqrt_floor_unique(n as int, r as int);
    }
    r
}

/// Projection constant: wall height times the projection-plane distance
/// implied by the field of view. Dividing it by a hit distance gives the
/// on-screen slice height.
pub const SLICE_HEIGHT_CONST: u32 = 1104;

/// On-screen height of a wall slice at squared distance `dsq`: the
/// projection constant over the rounded-down Euclidean distance, with
/// distances below one unit saturating to the full-wall height.
pub open spec fn spec_slice_height(dsq: int) -> int {
    let d = spec_sqrt_floor(dsq);
    1104int / (if d == 0 {
        1int
    } else {
        d
    })
}

/// A screen row lies inside a wall slice of height `h` when it falls within
/// half the slice height of the vertical centre row 80.
pub open spec fn spec_in_slice(row: int, h: int) -> bool {
    row > 80 - h / 2 && row < 80 + h / 2
}

/// Compute the slice height for a squared distance.
pub fn slice_height(dsq: u32) -> (h: u32)
    ensures
        h as int == spec_slice_height(dsq as int),
        h <= 1104,
{
    let d = isqrt(dsq);
    let dd: u32 = if d == 0 {
        1
    } else {
        d
    };
    SLICE_HEIGHT_CONST / dd
}

/// The colour of pixel (row, col) that the renderer owes for a ray at angle
/// unit `a`: the hit colour inside the wall slice, the background outside
/// it. Meaningful only when the ray has an intersection.
pub open spec fn spec_pixel(
    cells: Seq<Option<u8>>,
    tq: Seq<i32>,
    origin: (usize, usize),
    a: int,
    dir: Direction,
    row: int,
) -> u8 {
    match spec_find_intersection(cells, tq, origin, a, dir) {
        None => 3,
        Some(i) => if spec_in_slice(row, spec_slice_height(i.dist_sq as int)) {
            i.colour
        } else {
            3
        },
    }
}

/// The angle unit sampled for a screen column under each heading: a
/// half-field sweep each side of the heading's axis, decreasing by one unit
/// per column so that increasing column index sweeps consistently. The East
/// heading straddles the angle wrap and is assembled from two sub-ranges.
pub open spec fn spec_angle_for(dir: Direction, col: int) -> int {
    match dir {
        Direction::North => 559 - col,
        Direction::South => 1519 - col,
        Direction::West => 1039 - col,
        Direction::East => if col < 80 {
            79 - col
        } else {
            1999 - col
        },
    }
}

/// The angle unit for one screen column.
pub fn angle_for(dir: Direction, col: usize) -> (a: usize)
    requires
        col < 160,
    ensures
        a as int == spec_angle_for(dir, col as int),
        a < 1920,
{
    match dir {
        Direction::North => 559 - col,
        Direction::South => 1519 - col,
        Direction::West => 1039 - col,
        Direction::East => if col < 80 {
            79 - col
        } else {
            1999 - col
        },
    }
}

/// The ordered sequence of angle units to sample this frame, one per screen
/// column, regenerated fresh from the camera heading.
pub fn view_angles(dir: Direction) -> (v: Vec<usize>)
    ensures
        v@.len() == 160,
        forall|i: int| 0 <= i < 160 ==> #[trigger] v@[i] as int == spec_angle_for(dir, i),
        forall|i: int| 0 <= i < 160 ==> #[trigger] v@[i] < 1920,
{
    let mut v: Vec<usize> = Vec::new();
    let mut col: usize = 0;
    while col < 160
        invariant
            col <= 160,
            v@.len() == col,
            forall|i: int| 0 <= i < col ==> #[trigger] v@[i] as int == spec_angle_for(dir, i),
            forall|i: int| 0 <= i < col ==> #[trigger] v@[i] < 1920,
        decreases 160 - col,
    {
        v.push(angle_for(dir, col));
        col = col + 1;
    }
    v
}

/// The render pass failed because some ray found no intersection at all:
/// the grid border invariant was broken by an outside mutation.
#[derive(Clone, Copy, Debug, PartialEq, Eq, Structural)]
pub enum RenderError {
    MissingIntersection,
}

/// Project one wall slice per screen column into the framebuffer. Aborts
/// with an error, leaving later columns untouched, as soon as a ray finds
/// no intersection; a solid grid border rules that out.
pub fn draw_cols(
    grid: &Grid,
    tables: &TrigTables,
    fb: &mut Framebuffer,
    angles: &Vec<usize>,
    grid_origin: (usize, usize),
    dir: Direction,
) -> (res: Result<(), RenderError>)
    requires
        grid.wf(),
        tables.wf(),
        old(fb).wf(),
        grid_origin.0 < 40,
        grid_origin.1 < 40,
        angles@.len() == 160,
        forall|i: int| 0 <= i < 160 ==> #[trigger] angles@[i] < 1920,
    ensures
        final(fb).wf(),
        res is Ok <==> (forall|c: int|
            0 <= c < 160 ==> spec_find_intersection(
                grid@,
                tables.tan_q@,
                grid_origin,
                #[trigger] angles@[c] as int,
                dir,
            ) is Some),
        res is Ok ==> (forall|c: int, row: int|
            0 <= c < 160 && 0 <= row < 160 ==> #[trigger] spec_pixel_at(final(fb)@, row, c)
                == spec_pixel(grid@, tables.tan_q@, grid_origin, angles@[c] as int, dir, row)),
{
    let mut col: usize = 0;
    while col < 160
        invariant
            grid.wf(),
            tables.wf(),
            fb.wf(),
            grid_origin.0 < 40,
            grid_origin.1 < 40,
            angles@.len() == 160,
            forall|i: int| 0 <= i < 160 ==> #[trigger] angles@[i] < 1920,
            col <= 160,
            forall|c: int|
                0 <= c < col ==> spec_find_intersection(
                    grid@,
                    tables.tan_q@,
                    grid_origin,
                    #[trigger] angles@[c] as int,
                    dir,
                ) is Some,
            forall|c: int, row: int|
                0 <= c < col && 0 <= row < 160 ==> #[trigger] spec_pixel_at(fb@, row, c)
                    == spec_pixel(grid@, tables.tan_q@, grid_origin, angles@[c] as int, dir, row),
        decreases 160 - col,
    {
        let a = angles[col];
        let inter = match find_intersection(grid, tables, grid_origin, a, dir) {
            None => {
                return Err(RenderError::MissingIntersection);
            },
            Some(i) => i,
        };
        let h = slice_height(inter.dist_sq);
        let h2 = h / 2;
        let mut row: usize = 0;
        while row < 160
            invariant
                grid.wf(),
                tables.wf(),
                fb.wf(),
                grid_origin.0 < 40,
                grid_origin.1 < 40,
                angles@.len() == 160,
                forall|i: int| 0 <= i < 160 ==> #[trigger] angles@[i] < 1920,
                col < 160,
                row <= 160,
                a == angles@[col as int],
                spec_find_intersection(
                    grid@,
                    tables.tan_q@,
                    grid_origin,
                    a as int,
                    dir,
                ) == Some(inter),
                inter.colour < 4,
                h as int == spec_slice_height(inter.dist_sq as int),
                h <= 1104,
                h2 == h / 2,
                forall|c: int|
                    0 <= c < col ==> spec_find_intersection(
                        grid@,
                        tables.tan_q@,
                        grid_origin,
                        #[trigger] angles@[c] as int,
                        dir,
                    ) is Some,
                forall|c: int, r2: int|
                    0 <= c < col && 0 <= r2 < 160 ==> #[trigger] spec_pixel_at(fb@, r2, c)
                        == spec_pixel(grid@, tables.tan_q@, grid_origin, angles@[c] as int, dir, r2),
                forall|r2: int|
                    0 <= r2 < row ==> spec_pixel_at(fb@, r2, col as int) == spec_pixel(
                        grid@,
                        tables.tan_q@,
                        grid_origin,
                        a as int,
                        dir,
                        r2,
                    ),
            decreases 160 - row,
        {
            let target: u8 = if (row as i64) > 80 - (h2 as i64) && (row as i64) < 80 + (
            h2 as i64) {
                inter.colour
            } else {
                3
            };
            proof {
                assert(target == spec_pixel(
                    grid@,
                    tables.tan_q@,
                    grid_origin,
                    a as int,
                    dir,
                    row as int,
                ));
            }
            fb.set_pixel(row, col, target);
            row = row + 1;
        }
        col = col + 1;
    }
    Ok(())
}

/// Render one first-person frame: pick the angle sequence for the camera
/// heading and project every column. The framebuffer ends up fully
/// determined by the grid, the tables and the camera; the only failure is
/// the invariant violation of a ray without any intersection, which cannot
/// happen while the grid border is solid.
pub fn draw_3d(
    grid: &Grid,
    tables: &TrigTables,
    fb: &mut Framebuffer,
    grid_origin: (usize, usize),
    dir: Direction,
) -> (res: Result<(), RenderError>)
    requires
        grid.wf(),
        tables.wf(),
        old(fb).wf(),
        grid_origin.0 < 40,
        grid_origin.1 < 40,
    ensures
        final(fb).wf(),
        res is Ok <==> (forall|c: int|
            0 <= c < 160 ==> spec_find_intersection(
                grid@,
                tables.tan_q@,
                grid_origin,
                spec_angle_for(dir, c),
                dir,
            ) is Some),
        res is Ok ==> (forall|c: int, row: int|
            0 <= c < 160 && 0 <= row < 160 ==> #[trigger] spec_pixel_at(final(fb)@, row, c)
                == spec_pixel(grid@, tables.tan_q@, grid_origin, spec_angle_for(dir, c), dir, row)),
        grid.border_occupied() && 1 <= grid_origin.0 <= 38 && 1 <= grid_origin.1 <= 38
            ==> res is Ok,
{
    let angles = view_angles(dir);
    let res = draw_cols(grid, tables, fb, &angles, grid_origin, dir);
    proof {
        assert forall|c: int| 0 <= c < 160 implies angles@[c] as int == spec_angle_for(dir, c) by {}
        if grid.border_occupied() && 1 <= grid_origin.0 <= 38 && 1 <= grid_origin.1 <= 38 {
            lemma_draw_3d_total(grid@, tables.tan_q@, grid_origin, dir);
        }
    }
    res
}

/// The angle units that `spec_angle_for` samples under each heading.
pub open spec fn spec_heading_angle(dir: Direction, a: int) -> bool {
    match dir {
        Direction::North => 400 <= a < 560,
        Direction::South => 1360 <= a < 1520,
        Direction::West => 880 <= a < 1040,
        Direction::East => 0 <= a < 80 || 1840 <= a < 1920,
    }
}

/// A march whose free step is at most one cell side per move always hits an
/// occupied cell while the grid border is solid: before a sample point can
/// leave the area it must pass through a border cell. Here the y step is
/// the full cell side.
proof fn lemma_march_hits_y(cells: Seq<Option<u8>>, ax: int, ay: int, dx: int, dy: int, fuel: nat)
    requires
        spec_cells_wf(cells),
        spec_border_occupied(cells),
        0 <= ax < 160,
        0 <= ay < 160,
        -4 <= dx <= 4,
        dy == 4 || dy == -4,
        dy == -4 ==> fuel >= 1 + ay / 4,
        dy == 4 ==> fuel >= 40 - ay / 4,
    ensures
        spec_march(cells, ax, ay, dx, dy, fuel) is Some,
    decreases fuel,
{
    let gx = ax / 4;
    let gy = ay / 4;
    assert(0 <= gx < 40 && 0 <= gy < 40);
    assert(fuel >= 1);
    if cells[40 * gy + gx] is Some {
    } else {
        assert(!crate::grid::spec_is_border(gy, gx));
        assert(1 <= gx <= 38 && 1 <= gy <= 38);
        assert(4 <= ax && ax <= 155 && 4 <= ay && ay <= 155);
        assert((ay + dy) / 4 == ay / 4 + (if dy == 4 {
            1int
        } else {
            -1int
        }));
        lemma_march_hits_y(cells, ax + dx, ay + dy, dx, dy, (fuel - 1) as nat);
    }
}

/// The symmetric guarantee for a march whose x step is the full cell side.
proof fn lemma_march_hits_x(cells: Seq<Option<u8>>, ax: int, ay: int, dx: int, dy: int, fuel: nat)
    requires
        spec_cells_wf(cells),
        spec_border_occupied(cells),
        0 <= ax < 160,
        0 <= ay < 160,
        dx == 4 || dx == -4,
        -4 <= dy <= 4,
        dx == -4 ==> fuel >= 1 + ax / 4,
        dx == 4 ==> fuel >= 40 - ax / 4,
    ensures
        spec_march(cells, ax, ay, dx, dy, fuel) is Some,
    decreases fuel,
{
    let gx = ax / 4;
    let gy = ay / 4;
    assert(0 <= gx < 40 && 0 <= gy < 40);
    assert(fuel >= 1);
    if cells[40 * gy + gx] is Some {
    } else {
        assert(!crate::grid::spec_is_border(gy, gx));
        assert(1 <= gx <= 38 && 1 <= gy <= 38);
        assert(4 <= ax && ax <= 155 && 4 <= ay && ay <= 155);
        assert((ax + dx) / 4 == ax / 4 + (if dx == 4 {
            1int
        } else {
            -1int
        }));
        lemma_march_hits_x(cells, ax + dx, ay + dy, dx, dy, (fuel - 1) as nat);
    }
}

/// Every ray a heading actually samples has an intersection while the grid
/// border is solid and the camera sits strictly inside it: under each
/// heading the sampled angles stay within a quarter turn of the heading's
/// axis, which keeps one march's free step within one cell side.
pub proof fn lemma_find_some(
    cells: Seq<Option<u8>>,
    tq: Seq<i32>,
    origin: (usize, usize),
    a: int,
    dir: Direction,
)
    requires
        spec_cells_wf(cells),
        spec_border_occupied(cells),
        crate::trig::spec_tan_table_wf(tq),
        1 <= origin.0 <= 38,
        1 <= origin.1 <= 38,
        spec_heading_angle(dir, a),
    ensures
        spec_find_intersection(cells, tq, origin, a, dir) is Some,
{
    let px = spec_px(origin, dir);
    let py = spec_py(origin, dir);
    match dir {
        Direction::North | Direction::South => {
            // The horizontal march is live: its x step is the floored
            // cotangent, and close to the vertical axis that is at most one
            // cell side.
            let b = a % 960;
            let cot = spec_cot_fp(tq, a);
            if dir == Direction::North {
                assert(b == a);
            } else {
                assert(b == a - 960);
            }
            assert(400 <= b < 560 && b != 0);
            if b <= 480 {
                assert(crate::trig::spec_tan_entry_ok(480 - b, tq[480 - b]));
                assert(0 <= cot <= 256);
            } else {
                assert(crate::trig::spec_tan_entry_ok(b - 480, tq[b - 480]));
                assert(-256 <= cot <= 0);
            }
            let ay0 = if a > 960 {
                4 * origin.0 + 4
            } else {
                4 * origin.0 - 1
            };
            assert(py - ay0 == (if dir == Direction::North {
                1int
            } else {
                0int
            }));
            let off = (py - ay0) * cot / 256;
            assert(-256 <= (py - ay0) * cot <= 256) by (nonlinear_arith)
                requires
                    0 <= py - ay0 <= 1 && -256 <= cot <= 256,
            ;
            assert(-1 <= off <= 1);
            let ax0 = px + off;
            assert(px == 4 * origin.1 + 2);
            assert(3 <= ax0 <= 155);
            let xa = 4 * cot / 256;
            assert(-4 <= xa <= 4);
            assert(0 <= ay0 < 160);
            let yd: int = if a > 960 {
                4
            } else {
                -4
            };
            if dir == Direction::North {
                assert(ay0 / 4 == origin.0 - 1);
                lemma_march_hits_y(cells, ax0, ay0, xa, yd, 41);
            } else {
                assert(ay0 / 4 == origin.0 + 1);
                lemma_march_hits_y(cells, ax0, ay0, xa, yd, 41);
            }
            assert(spec_h_find(cells, tq, origin, a, dir) is Some);
            assert(spec_h_intersection(cells, tq, origin, a, dir) is Some);
        },
        Direction::East | Direction::West => {
            // The vertical march is live: its y step is the floored
            // tangent, and close to the horizontal axis that is at most one
            // cell side.
            let b = a % 960;
            let tn = spec_tan_fp(tq, a);
            if dir == Direction::East {
                if a < 80 {
                    assert(b == a);
                    assert(crate::trig::spec_tan_entry_ok(b, tq[b]));
                    assert(0 <= tn <= 256);
                } else {
                    assert(b == a - 960 && 880 <= b < 960);
                    assert(crate::trig::spec_tan_entry_ok(960 - b, tq[960 - b]));
                    assert(-256 <= tn <= 0);
                }
            } else {
                if a < 960 {
                    assert(b == a && 880 <= b < 960);
                    assert(crate::trig::spec_tan_entry_ok(960 - b, tq[960 - b]));
                    assert(-256 <= tn <= 0);
                } else {
                    assert(b == a - 960 && 0 <= b < 80);
                    assert(crate::trig::spec_tan_entry_ok(b, tq[b]));
                    assert(0 <= tn <= 256);
                }
            }
            assert(a != 480 && a != 1440);
            let ax0 = if 480 <= a <= 1440 {
                4 * origin.1 - 1
            } else {
                4 * origin.1 + 4
            };
            assert(px - ax0 == (if dir == Direction::West {
                1int
            } else {
                0int
            }));
            let off = (px - ax0) * tn / 256;
            assert(-256 <= (px - ax0) * tn <= 256) by (nonlinear_arith)
                requires
                    0 <= px - ax0 <= 1 && -256 <= tn <= 256,
            ;
            assert(-1 <= off <= 1);
            let ay0 = py + off;
            assert(py == 4 * origin.0 + 2);
            assert(5 <= ay0 <= 155);
            let ya = 4 * tn / 256;
            assert(-4 <= ya <= 4);
            assert(0 <= ax0 < 160);
            let xd: int = if 480 <= a <= 1440 {
                -4
            } else {
                4
            };
            if dir == Direction::West {
                assert(ax0 / 4 == origin.1 - 1);
                lemma_march_hits_x(cells, ax0, ay0, xd, ya, 41);
            } else {
                assert(ax0 / 4 == origin.1 + 1);
                lemma_march_hits_x(cells, ax0, ay0, xd, ya, 41);
            }
            assert(spec_v_find(cells, tq, origin, a, dir) is Some);
            assert(spec_v_intersection(cells, tq, origin, a, dir) is Some);
        },
    }
}

/// For any camera cell strictly inside a solid border and any heading,
/// every screen column's ray has an intersection: a full frame renders
/// without the invariant-violation abort.
pub proof fn lemma_draw_3d_total(
    cells: Seq<Option<u8>>,
    tq: Seq<i32>,
    origin: (usize, usize),
    dir: Direction,
)
    requires
        spec_cells_wf(cells),
        spec_border_occupied(cells),
        crate::trig::spec_tan_table_wf(tq),
        1 <= origin.0 <= 38,
        1 <= origin.1 <= 38,
    ensures
        forall|c: int|
            0 <= c < 160 ==> spec_find_intersection(
                cells,
                tq,
                origin,
                spec_angle_for(dir, c),
                dir,
            ) is Some,
{
    assert forall|c: int| 0 <= c < 160 implies spec_find_intersection(
        cells,
        tq,
        origin,
        spec_angle_for(dir, c),
        dir,
    ) is Some by {
        assert(spec_heading_angle(dir, spec_angle_for(dir, c)));
        lemma_find_some(cells, tq, origin, spec_angle_for(dir, c), dir);
    }
}

/// At each of the four degenerate angles one march abstains, no division by
/// a vanished slope is attempted anywhere, and the other march still
/// supplies the intersection for the heading that samples that angle.
pub proof fn lemma_degenerate_angles(cells: Seq<Option<u8>>, tq: Seq<i32>, origin: (usize, usize))
    requires
        spec_cells_wf(cells),
        spec_border_occupied(cells),
        crate::trig::spec_tan_table_wf(tq),
        1 <= origin.0 <= 38,
        1 <= origin.1 <= 38,
    ensures
        spec_h_find(cells, tq, origin, 0, Direction::East) is None,
        spec_v_find(cells, tq, origin, 0, Direction::East) is Some,
        spec_find_intersection(cells, tq, origin, 0, Direction::East) is Some,
        spec_v_find(cells, tq, origin, 480, Direction::North) is None,
        spec_h_find(cells, tq, origin, 480, Direction::North) is Some,
        spec_find_intersection(cells, tq, origin, 480, Direction::North) is Some,
        spec_h_find(cells, tq, origin, 960, Direction::West) is None,
        spec_v_find(cells, tq, origin, 960, Direction::West) is Some,
        spec_find_intersection(cells, tq, origin, 960, Direction::West) is Some,
        spec_v_find(cells, tq, origin, 1440, Direction::South) is None,
        spec_h_find(cells, tq, origin, 1440, Direction::South) is Some,
        spec_find_intersection(cells, tq, origin, 1440, Direction::South) is Some,
{
    lemma_find_some(cells, tq, origin, 0, Direction::East);
    lemma_find_some(cells, tq, origin, 480, Direction::North);
    lemma_find_some(cells, tq, origin, 960, Direction::West);
    lemma_find_some(cells, tq, origin, 1440, Direction::South);
}

/// The rounded-down square root never decreases.
pub proof fn lemma_sqrt_floor_monotone(n1: int, n2: int)
    requires
        0 <= n1 <= n2,
    ensures
        spec_sqrt_floor(n1) <= spec_sqrt_floor(n2),
{
    lemma_sqrt_floor_bounds(n1);
    lemma_sqrt_floor_bounds(n2);
    let s1 = spec_sqrt_floor(n1);
    let s2 = spec_sqrt_floor(n2);
    assert(s1 <= s2) by (nonlinear_arith)
        requires
            s1 >= 0,
            s2 >= 0,
            s1 * s1 <= n1,
            n1 <= n2,
            n2 < (s2 + 1) * (s2 + 1),
    ;
}

/// A wall slice never grows as the hit moves farther away: the slice height
/// is antitone in the squared distance.
pub proof fn lemma_slice_height_antitone(d1: int, d2: int)
    requires
        0 <= d1 <= d2,
    ensures
        spec_slice_height(d2) <= spec_slice_height(d1),
{
    lemma_sqrt_floor_monotone(d1, d2);
    lemma_sqrt_floor_bounds(d1);
    let s1 = spec_sqrt_floor(d1);
    let s2 = spec_sqrt_floor(d2);
    let e1: int = if s1 == 0 {
        1
    } else {
        s1
    };
    let e2: int = if s2 == 0 {
        1
    } else {
        s2
    };
    vstd::arithmetic::div_mod::lemma_div_is_ordered_by_denominator(1104, e1, e2);
}

/// A march straight up an empty column of cells hits the first occupied
/// cell above, on the grid line just under it.
proof fn lemma_march_straight_up(
    cells: Seq<Option<u8>>,
    px: int,
    g: int,
    rw: int,
    colour: u8,
    fuel: nat,
)
    requires
        spec_cells_wf(cells),
        0 <= px < 160,
        0 <= rw <= g <= 39,
        cells[40 * rw + px / 4] == Some(colour),
        forall|row: int| rw < row <= g ==> cells[#[trigger] (40 * row) + px / 4] is None,
        fuel >= g - rw + 1,
    ensures
        spec_march(cells, px, 4 * g + 3, 0, -4, fuel) == Some((px, 4 * rw + 3, colour)),
    decreases g - rw,
{
    let ay = 4 * g + 3;
    assert(ay / 4 == g);
    if g == rw {
    } else {
        assert(cells[(40 * g) + px / 4] is None);
        lemma_march_straight_up(cells, px, g - 1, rw, colour, (fuel - 1) as nat);
    }
}

/// A camera facing North sees, along its straight-ahead ray, the first
/// occupied cell up its own column: the hit lies on that cell's lower grid
/// line and the squared distance is the exact squared Euclidean distance
/// from the ray origin.
pub proof fn lemma_straight_ray_north(
    cells: Seq<Option<u8>>,
    tq: Seq<i32>,
    origin: (usize, usize),
    rw: int,
    colour: u8,
)
    requires
        spec_cells_wf(cells),
        crate::trig::spec_tan_table_wf(tq),
        1 <= origin.0 <= 39,
        origin.1 < 40,
        0 <= rw < origin.0,
        cells[40 * rw + origin.1] == Some(colour),
        forall|row: int| rw < row < origin.0 ==> cells[#[trigger] (40 * row) + origin.1] is None,
    ensures
        spec_h_find(cells, tq, origin, 480, Direction::North) == Some(
            (4 * origin.1 + 2, 4 * rw + 3, colour),
        ),
        spec_h_intersection(cells, tq, origin, 480, Direction::North) == Some(
            (Intersection {
                kind: IntersectionKind::HorizontalGrid,
                dist_sq: ((4 * (origin.0 - rw) - 3) * (4 * (origin.0 - rw) - 3)) as u32,
                colour,
            }),
        ),
{
    let px = spec_px(origin, Direction::North);
    assert(px == 4 * origin.1 + 2);
    assert(px / 4 == origin.1);
    assert(crate::trig::spec_tan_entry_ok(0, tq[0]));
    assert(spec_cot_fp(tq, 480) == 0);
    assert(4 * origin.0 - 1 == 4 * (origin.0 - 1) + 3);
    lemma_march_straight_up(cells, px, origin.0 - 1, rw, colour, 41);
    let dy = 4 * origin.0 - (4 * rw + 3);
    assert(spec_dist_sq(px, 4 * origin.0, px, 4 * rw + 3) == dy * dy);
    assert(dy == 4 * (origin.0 - rw) - 3);
}

/// Distance is monotone along the sight line: as a camera facing North
/// backs straight away from the first occupied cell up its column, the
/// squared hit distance never decreases and the projected wall slice never
/// grows.
pub proof fn lemma_wall_recedes(
    cells: Seq<Option<u8>>,
    tq: Seq<i32>,
    near: (usize, usize),
    far: (usize, usize),
    rw: int,
    colour: u8,
)
    requires
        spec_cells_wf(cells),
        crate::trig::spec_tan_table_wf(tq),
        near.1 == far.1,
        near.1 < 40,
        1 <= near.0 <= far.0 <= 39,
        0 <= rw < near.0,
        cells[40 * rw + near.1] == Some(colour),
        forall|row: int| rw < row < far.0 ==> cells[#[trigger] (40 * row) + near.1] is None,
    ensures
        spec_h_intersection(cells, tq, near, 480, Direction::North) matches Some(n)
            && spec_h_intersection(cells, tq, far, 480, Direction::North) matches Some(f) ==> (
        n.dist_sq <= f.dist_sq && spec_slice_height(f.dist_sq as int) <= spec_slice_height(
            n.dist_sq as int,
        )),
{
    lemma_straight_ray_north(cells, tq, near, rw, colour);
    lemma_straight_ray_north(cells, tq, far, rw, colour);
    let dn = 4 * (near.0 - rw) - 3;
    let df = 4 * (far.0 - rw) - 3;
    assert(0 <= dn * dn <= df * df && df * df < 30000) by (nonlinear_arith)
        requires
            0 < dn <= df < 160,
    ;
    assert((dn * dn) as u32 as int == dn * dn && (df * df) as u32 as int == df * df);
    lemma_slice_height_antitone(dn * dn, df * df);
}

/// The view orchestrator's sweep is consistently oriented: every sampled
/// angle lies in the heading's own quarter-turn band, successive columns
/// step the angle down by exactly one unit, and the East heading's two
/// sub-ranges meet at the angle wrap without a gap, so the assembled
/// sequence shows no seam.
pub proof fn lemma_angle_sequence(dir: Direction)
    ensures
        forall|c: int| 0 <= c < 160 ==> spec_heading_angle(dir, #[trigger] spec_angle_for(dir, c)),
        forall|c: int|
            0 <= c < 159 && !(dir == Direction::East && c == 79) ==> spec_angle_for(dir, c + 1)
                == #[trigger] spec_angle_for(dir, c) - 1,
        spec_angle_for(Direction::East, 79) == 0,
        spec_angle_for(Direction::East, 80) == 1919,
{
}

/// The tie-break is deterministic: whenever both marches find a hit and the
/// horizontal one is at most as far, the combined result is exactly the
/// horizontal hit; only a strictly nearer vertical hit wins.
pub proof fn lemma_tie_prefers_horizontal(
    cells: Seq<Option<u8>>,
    tq: Seq<i32>,
    origin: (usize, usize),
    a: int,
    dir: Direction,
)
    requires
        spec_h_intersection(cells, tq, origin, a, dir) is Some,
        spec_v_intersection(cells, tq, origin, a, dir) is Some,
    ensures
        spec_h_intersection(cells, tq, origin, a, dir) matches Some(hi)
            && spec_v_intersection(cells, tq, origin, a, dir) matches Some(vi) ==> (
        spec_find_intersection(cells, tq, origin, a, dir) == (if hi.dist_sq <= vi.dist_sq {
            Some(hi)
        } else {
            Some(vi)
        })),
{
}

} // verus!
