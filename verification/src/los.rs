//! Line of sight between two points of the world.
//!
//! The straight path from source to target is followed cell by cell: at
//! each step the path leaves the current cell through the side it reaches
//! first. The comparison of the two crossing distances is exact, by cross
//! multiplication, so no rounding enters the walk.

use vstd::prelude::*;
use crate::fixed::{cell_index, cell_of};
use crate::grid::Grid;

verus! {

/// Direction of travel along one axis: -1 for a negative delta, else 1.
pub open spec fn step_of(d: int) -> int {
    if d < 0 {
        -1
    } else {
        1
    }
}

/// Distance along one axis from the coordinate `s` to the side through
/// which a path with delta `d` leaves the cell of `s`.
pub open spec fn first_boundary(s: int, d: int) -> int {
    if d < 0 {
        s - cell_index(s) * 65536
    } else {
        (cell_index(s) + 1) * 65536 - s
    }
}

/// Absolute value.
pub open spec fn magnitude(d: int) -> int {
    if d < 0 {
        -d
    } else {
        d
    }
}

/// Whether a path with deltas `dx`, `dy` reaches the next vertical cell
/// side, `ax` away along x, strictly before the next horizontal one, `ay`
/// away along y. On a tie the horizontal side is crossed first.
pub open spec fn crosses_x_first(ax: int, ay: int, dx: int, dy: int) -> bool {
    ax * magnitude(dy) < ay * magnitude(dx)
}

/// Most steps a walk may take in this grid.
pub open spec fn max_steps(grid: &Grid) -> nat {
    (4 * (grid.spec_w() + grid.spec_h())) as nat
}

/// The walk from the cell `(cx, cy)`, whose next sides lie `ax` and `ay`
/// ahead of the source, with at most `steps` steps left: true if it enters
/// the target cell `(gx, gy)` before it enters a wall or runs out of steps.
pub open spec fn walk_reaches(
    grid: &Grid,
    cx: int,
    cy: int,
    ax: int,
    ay: int,
    dx: int,
    dy: int,
    gx: int,
    gy: int,
    steps: nat,
) -> bool
    decreases steps,
{
    if steps == 0 {
        false
    } else {
        let x_first = crosses_x_first(ax, ay, dx, dy);
        let nx = if x_first { cx + step_of(dx) } else { cx };
        let ny = if x_first { cy } else { cy + step_of(dy) };
        let nax = if x_first { ax + 65536 } else { ax };
        let nay = if x_first { ay } else { ay + 65536 };
        if nx == gx && ny == gy {
            true
        } else if grid.solid(nx, ny) {
            false
        } else {
            walk_reaches(grid, nx, ny, nax, nay, dx, dy, gx, gy, (steps - 1) as nat)
        }
    }
}

/// Whether the target `(tx, ty)` can be seen from the source `(sx, sy)`:
/// both lie in one cell, or the walk along the straight path from the
/// source enters the target's cell before any wall.
pub open spec fn line_of_sight(grid: &Grid, sx: int, sy: int, tx: int, ty: int) -> bool {
    if cell_index(sx) == cell_index(tx) && cell_index(sy) == cell_index(ty) {
        true
    } else {
        walk_reaches(
            grid,
            cell_index(sx),
            cell_index(sy),
            first_boundary(sx, tx - sx),
            first_boundary(sy, ty - sy),
            tx - sx,
            ty - sy,
            cell_index(tx),
            cell_index(ty),
            max_steps(grid),
        )
    }
}

/// Exact comparison of the two crossing distances.
pub(crate) fn x_side_first(ax: i64, ay: i64, dx: i64, dy: i64) -> (b: bool)
    requires
        0 <= ax <= 0x10_0000_0000,
        0 <= ay <= 0x10_0000_0000,
        -0x1_0000_0000 <= dx <= 0x1_0000_0000,
        -0x1_0000_0000 <= dy <= 0x1_0000_0000,
    ensures
        b == crosses_x_first(ax as int, ay as int, dx as int, dy as int),
{
    let mx: i128 = if dx < 0 { -(dx as i128) } else { dx as i128 };
    let my: i128 = if dy < 0 { -(dy as i128) } else { dy as i128 };
    let wx: i128 = ax as i128;
    let wy: i128 = ay as i128;
    assert(0 <= wx * my <= 0x10_0000_0000 * 0x1_0000_0000) by (nonlinear_arith)
        requires
            0 <= wx <= 0x10_0000_0000,
            0 <= my <= 0x1_0000_0000,
    ;
    assert(0 <= wy * mx <= 0x10_0000_0000 * 0x1_0000_0000) by (nonlinear_arith)
        requires
            0 <= wy <= 0x10_0000_0000,
            0 <= mx <= 0x1_0000_0000,
    ;
    wx * my < wy * mx
}

/// Line of sight from `(sx, sy)` to `(tx, ty)`: true when both points lie
/// in one cell, or when the straight path from the source enters the
/// target's cell before it enters any wall cell. The walk gives up, and
/// reports no sight, after `4 * (w + h)` steps.
pub fn has_los(map: &Grid, sx: i32, sy: i32, tx: i32, ty: i32) -> (seen: bool)
    ensures
        seen == line_of_sight(map, sx as int, sy as int, tx as int, ty as int),
        cell_index(sx as int) == cell_index(tx as int) && cell_index(sy as int) == cell_index(
            ty as int,
        ) ==> seen,
{
    let dx: i64 = tx as i64 - sx as i64;
    let dy: i64 = ty as i64 - sy as i64;
    let mut cx: i32 = cell_of(sx);
    let mut cy: i32 = cell_of(sy);
    let gx: i32 = cell_of(tx);
    let gy: i32 = cell_of(ty);
    if cx == gx && cy == gy {
        return true;
    }
    let step_x: i32 = if dx < 0 { -1 } else { 1 };
    let step_y: i32 = if dy < 0 { -1 } else { 1 };
    let mut ax: i64 = if dx < 0 {
        sx as i64 - cx as i64 * 65536
    } else {
        (cx as i64 + 1) * 65536 - sx as i64
    };
    let mut ay: i64 = if dy < 0 {
        sy as i64 - cy as i64 * 65536
    } else {
        (cy as i64 + 1) * 65536 - sy as i64
    };
    let limit: usize = (map.w() + map.h()) * 4;
    let mut left: usize = limit;
    while left > 0
        invariant
            map.wf(),
            limit == max_steps(map),
            limit <= 262144,
            left <= limit,
            dx == tx - sx,
            dy == ty - sy,
            step_x == step_of(dx as int),
            step_y == step_of(dy as int),
            gx == cell_index(tx as int),
            gy == cell_index(ty as int),
            -32768 <= cx <= 32767,
            -32768 <= cy <= 32767,
            0 <= ax <= 65536 + (limit - left) * 65536,
            0 <= ay <= 65536 + (limit - left) * 65536,
            line_of_sight(map, sx as int, sy as int, tx as int, ty as int) == walk_reaches(
                map,
                cx as int,
                cy as int,
                ax as int,
                ay as int,
                dx as int,
                dy as int,
                gx as int,
                gy as int,
                left as nat,
            ),
        decreases left,
    {
        if x_side_first(ax, ay, dx, dy) {
            ax = ax + 65536;
            cx = cx + step_x;
        } else {
            ay = ay + 65536;
            cy = cy + step_y;
        }
        if cx == gx && cy == gy {
            return true;
        }
        if map.is_solid(cx, cy) {
            return false;
        }
        left = left - 1;
    }
    false
}

/// Whether the point a fraction `n / m` of the way from `s` to `s + d`
/// lies strictly inside the cell with index `c`, along one axis.
pub open spec fn strictly_in_cell(s: int, d: int, n: int, m: int, c: int) -> bool {
    c * 65536 * m < s * m + n * d && s * m + n * d < (c + 1) * 65536 * m
}

/// Whether the straight path from the source to the target passes
/// through the inside of the cell `(wx, wy)` somewhere strictly between
/// its two ends.
pub open spec fn path_crosses(sx: int, sy: int, tx: int, ty: int, wx: int, wy: int) -> bool {
    exists|n: int, m: int|
        0 < n < m && #[trigger] strictly_in_cell(sx, tx - sx, n, m, wx) && #[trigger] strictly_in_cell(
            sy,
            ty - sy,
            n,
            m,
            wy,
        )
}

/// How many cells the cell `to` lies ahead of the cell `from`, along one
/// axis, for a path with delta `d`.
pub open spec fn lead(d: int, from: int, to: int) -> int {
    if d < 0 {
        from - to
    } else {
        to - from
    }
}

/// Whether `a` is the distance from `s` to the side through which a path
/// with delta `d` leaves the cell `c`.
pub open spec fn leaves_at(s: int, d: int, c: int, a: int) -> bool {
    &&& a >= 0
    &&& d >= 0 ==> s + a == (c + 1) * 65536
    &&& d < 0 ==> s - a == c * 65536
}

proof fn lemma_scale(a: int, b: int, k: int)
    by (nonlinear_arith)
    requires
        k > 0,
        a <= b,
    ensures
        a * k <= b * k,
        a * 65536 * k <= b * 65536 * k,
{
}

proof fn lemma_spread(s: int, a: int, m: int)
    by (nonlinear_arith)
    ensures
        (s + a) * m == s * m + a * m,
        (s - a) * m == s * m - a * m,
{
}

/// Along one axis: a point of the path inside the current cell's column
/// has not yet passed the side ahead; one inside a column farther on has.
pub proof fn lemma_travel(s: int, d: int, c: int, a: int, w: int, n: int, m: int)
    requires
        0 < n,
        0 < m,
        leaves_at(s, d, c, a),
        strictly_in_cell(s, d, n, m, w),
    ensures
        w == c ==> n * magnitude(d) < a * m,
        lead(d, c, w) >= 1 ==> n * magnitude(d) > a * m,
{
    if d >= 0 {
        lemma_spread(s, a, m);
        assert((c + 1) * 65536 * m == s * m + a * m) by (nonlinear_arith)
            requires
                s + a == (c + 1) * 65536,
                (s + a) * m == s * m + a * m,
        ;
        if w - c >= 1 {
            lemma_scale(c + 1, w, m);
        }
    } else {
        lemma_spread(s, a, m);
        assert(c * 65536 * m == s * m - a * m) by (nonlinear_arith)
            requires
                s - a == c * 65536,
                (s - a) * m == s * m - a * m,
        ;
        assert(n * (-d) == -(n * d)) by (nonlinear_arith);
        if c - w >= 1 {
            lemma_scale(w + 1, c, m);
        }
    }
}

/// The two crossing distances cannot disagree with the side that the walk
/// takes: if the path's point has not passed the side ahead along one axis
/// but has along the other, the walk crosses the other side first.
pub proof fn lemma_sides_agree(a: int, b: int, u: int, v: int, n: int, m: int)
    by (nonlinear_arith)
    requires
        0 < n,
        0 < m,
        u >= 0,
        v >= 0,
        a >= 0,
        b >= 0,
        n * u < a * m,
        n * v > b * m,
    ensures
        !(a * v < b * u),
{
    // n*u*v <= a*m*v and b*m*u <= n*v*u, so a*v < b*u would give n*u*v < n*u*v
    assert(n * u * v <= a * m * v);
    assert(b * m * u <= n * v * u);
    if a * v < b * u {
        assert(a * v * m < b * u * m);
        assert(n * u * v == n * v * u);
        assert(a * m * v == a * v * m);
        assert(b * m * u == b * u * m);
    }
}

pub proof fn lemma_sides_agree_y(a: int, b: int, u: int, v: int, n: int, m: int)
    by (nonlinear_arith)
    requires
        0 < n,
        0 < m,
        u >= 0,
        v >= 0,
        a >= 0,
        b >= 0,
        n * v < b * m,
        n * u > a * m,
    ensures
        a * v < b * u,
{
    assert(u > 0);
    assert(n * v * u < b * m * u);
    assert(a * m * v <= n * u * v);
    assert(n * u * v == n * v * u);
    assert(a * m * v == a * v * m);
    assert(b * m * u == b * u * m);
    if a * v >= b * u {
        assert(a * v * m >= b * u * m);
    }
}

/// Along one axis, no cell beyond the target's holds a point strictly
/// between the two ends of the path.
proof fn lemma_not_beyond_target(s: int, d: int, w: int, n: int, m: int)
    requires
        0 < n < m,
        strictly_in_cell(s, d, n, m, w),
    ensures
        lead(d, cell_index(s + d), w) <= 0,
{
    let g = cell_index(s + d);
    lemma_spread(s, d, m);
    if d >= 0 {
        if w - g >= 1 {
            lemma_scale(g + 1, w, m);
            assert((s + d) * m < (g + 1) * 65536 * m) by (nonlinear_arith)
                requires
                    s + d < (g + 1) * 65536,
                    m > 0,
            ;
            assert(n * d <= m * d) by (nonlinear_arith)
                requires
                    n < m,
                    d >= 0,
            ;
            assert(d * m == m * d) by (nonlinear_arith);
        }
    } else {
        if g - w >= 1 {
            lemma_scale(w + 1, g, m);
            assert((s + d) * m >= g * 65536 * m) by (nonlinear_arith)
                requires
                    s + d >= g * 65536,
                    m > 0,
            ;
            assert(n * d >= m * d) by (nonlinear_arith)
                requires
                    n < m,
                    d < 0,
                    n > 0,
            ;
            assert(d * m == m * d) by (nonlinear_arith);
        }
    }
}

/// Along one axis, no cell behind the source's holds a point of the path.
pub proof fn lemma_not_behind_source(s: int, d: int, w: int, n: int, m: int)
    requires
        0 < n,
        0 < m,
        strictly_in_cell(s, d, n, m, w),
    ensures
        lead(d, cell_index(s), w) >= 0,
{
    let c = cell_index(s);
    if d >= 0 {
        assert(n * d >= 0) by (nonlinear_arith)
            requires
                n > 0,
                d >= 0,
        ;
        assert(s * m >= c * 65536 * m) by (nonlinear_arith)
            requires
                s >= c * 65536,
                m > 0,
        ;
        if w < c {
            lemma_scale(w + 1, c, m);
        }
    } else {
        assert(n * d < 0) by (nonlinear_arith)
            requires
                n > 0,
                d < 0,
        ;
        assert(s * m < (c + 1) * 65536 * m) by (nonlinear_arith)
            requires
                s < (c + 1) * 65536,
                m > 0,
        ;
        if w > c {
            lemma_scale(c + 1, w, m);
        }
    }
}

/// From a cell behind the wall cell `(wx, wy)` on the path, the walk
/// cannot reach the target: it comes to the wall first.
proof fn lemma_walk_blocked(
    grid: &Grid,
    cx: int,
    cy: int,
    ax: int,
    ay: int,
    sx: int,
    sy: int,
    dx: int,
    dy: int,
    steps: nat,
    wx: int,
    wy: int,
    n: int,
    m: int,
)
    requires
        0 < n < m,
        strictly_in_cell(sx, dx, n, m, wx),
        strictly_in_cell(sy, dy, n, m, wy),
        leaves_at(sx, dx, cx, ax),
        leaves_at(sy, dy, cy, ay),
        grid.solid(wx, wy),
        !(wx == cell_index(sx + dx) && wy == cell_index(sy + dy)),
        lead(dx, cx, wx) >= 0,
        lead(dy, cy, wy) >= 0,
        !(wx == cx && wy == cy),
    ensures
        !walk_reaches(
            grid,
            cx,
            cy,
            ax,
            ay,
            dx,
            dy,
            cell_index(sx + dx),
            cell_index(sy + dy),
            steps,
        ),
    decreases steps,
{
    if steps > 0 {
        let gx = cell_index(sx + dx);
        let gy = cell_index(sy + dy);
        let x_first = crosses_x_first(ax, ay, dx, dy);
        let nx = if x_first { cx + step_of(dx) } else { cx };
        let ny = if x_first { cy } else { cy + step_of(dy) };
        let nax = if x_first { ax + 65536 } else { ax };
        let nay = if x_first { ay } else { ay + 65536 };
        lemma_travel(sx, dx, cx, ax, wx, n, m);
        lemma_travel(sy, dy, cy, ay, wy, n, m);
        // the wall stays ahead of the cell that the walk enters
        if x_first {
            if wx == cx {
                lemma_sides_agree(ax, ay, magnitude(dx), magnitude(dy), n, m);
            }
        } else {
            if wy == cy {
                lemma_sides_agree_y(ax, ay, magnitude(dx), magnitude(dy), n, m);
            }
        }
        assert(lead(dx, nx, wx) >= 0);
        assert(lead(dy, ny, wy) >= 0);
        // the target is not reached before the wall
        lemma_not_beyond_target(sx, dx, wx, n, m);
        lemma_not_beyond_target(sy, dy, wy, n, m);
        assert(!(nx == gx && ny == gy));
        if !grid.solid(nx, ny) {
            lemma_walk_blocked(
                grid,
                nx,
                ny,
                nax,
                nay,
                sx,
                sy,
                dx,
                dy,
                (steps - 1) as nat,
                wx,
                wy,
                n,
                m,
            );
        }
    }
}

/// A wall cell on the straight path blocks the sight: if the path from
/// the source to the target passes through the inside of a wall cell that
/// holds neither of its ends, the target is not seen.
pub proof fn lemma_wall_on_path_blocks(
    grid: &Grid,
    sx: int,
    sy: int,
    tx: int,
    ty: int,
    wx: int,
    wy: int,
)
    requires
        grid.solid(wx, wy),
        path_crosses(sx, sy, tx, ty, wx, wy),
        !(wx == cell_index(sx) && wy == cell_index(sy)),
        !(wx == cell_index(tx) && wy == cell_index(ty)),
    ensures
        !line_of_sight(grid, sx, sy, tx, ty),
{
    let (n, m) = choose|n: int, m: int|
        0 < n < m && #[trigger] strictly_in_cell(sx, tx - sx, n, m, wx) && #[trigger] strictly_in_cell(
            sy,
            ty - sy,
            n,
            m,
            wy,
        );
    let dx = tx - sx;
    let dy = ty - sy;
    lemma_not_behind_source(sx, dx, wx, n, m);
    lemma_not_behind_source(sy, dy, wy, n, m);
    lemma_not_beyond_target(sx, dx, wx, n, m);
    lemma_not_beyond_target(sy, dy, wy, n, m);
    if cell_index(sx) == cell_index(tx) && cell_index(sy) == cell_index(ty) {
        // the wall would be both not behind and not beyond the one cell
        assert(false);
    } else {
        lemma_walk_blocked(
            grid,
            cell_index(sx),
            cell_index(sy),
            first_boundary(sx, dx),
            first_boundary(sy, dy),
            sx,
            sy,
            dx,
            dy,
            max_steps(grid),
            wx,
            wy,
            n,
            m,
        );
    }
}

/// Two points in one cell see each other, whatever the grid holds.
pub proof fn lemma_same_cell_sees(grid: &Grid, sx: int, sy: int, tx: int, ty: int)
    requires
        cell_index(sx) == cell_index(tx),
        cell_index(sy) == cell_index(ty),
    ensures
        line_of_sight(grid, sx, sy, tx, ty),
{
}

} // verus!
