//! Wall ray casting: one ray per screen column, the wall it meets, the
//! distance to it and the textured slice that the column shows.

use vstd::prelude::*;
use crate::consts::{SCREEN_H, SCREEN_W};
use crate::fixed::{
    cell_index, cell_of, clamp, clamp_to_i32, clamp_to_i64, div_floor_wide, div_toward_zero,
    div_toward_zero_wide, div_trunc, mul_wide,
};
use crate::grid::Grid;
use crate::los::{
    crosses_x_first, first_boundary, lead, leaves_at, lemma_not_behind_source, lemma_sides_agree,
    lemma_sides_agree_y, lemma_travel, magnitude, max_steps, step_of, strictly_in_cell, x_side_first,
};

verus! {

/// Depth of a column in which no wall was found.
pub const DEPTH_FAR: i64 = 0x7fff_ffff_ffff_ffff;

/// The side of a cell through which a ray entered it.
#[derive(Clone, Copy, PartialEq, Eq, Structural, Debug)]
pub enum Side {
    /// A side that faces along the x axis
    X,
    /// A side that faces along the y axis
    Y,
}

/// Where a ray met a wall.
#[derive(Clone, Copy, PartialEq, Eq, Structural, Debug)]
pub struct RayHit {
    /// Column of the wall cell
    pub map_x: i32,
    /// Row of the wall cell
    pub map_y: i32,
    /// Side through which the ray entered the cell
    pub side: Side,
    /// Direction of travel along x: -1 or 1
    pub step_x: i32,
    /// Direction of travel along y: -1 or 1
    pub step_y: i32,
}

/// Most steps a ray takes before it gives up.
pub open spec fn ray_steps(grid: &Grid) -> nat {
    max_steps(grid) + 1
}

/// The ray's walk from the cell `(cx, cy)`, whose next sides lie `ax` and
/// `ay` ahead of the viewer: the first wall cell entered within `steps`
/// steps, with the side through which the ray came in.
pub open spec fn ray_walk(
    grid: &Grid,
    cx: int,
    cy: int,
    ax: int,
    ay: int,
    dx: int,
    dy: int,
    steps: nat,
) -> Option<RayHit>
    decreases steps,
{
    if steps == 0 {
        None
    } else {
        let x_first = crosses_x_first(ax, ay, dx, dy);
        let nx = if x_first { cx + step_of(dx) } else { cx };
        let ny = if x_first { cy } else { cy + step_of(dy) };
        let nax = if x_first { ax + 65536 } else { ax };
        let nay = if x_first { ay } else { ay + 65536 };
        if grid.solid(nx, ny) {
            Some(
                RayHit {
                    map_x: nx as i32,
                    map_y: ny as i32,
                    side: if x_first { Side::X } else { Side::Y },
                    step_x: step_of(dx) as i32,
                    step_y: step_of(dy) as i32,
                },
            )
        } else {
            ray_walk(grid, nx, ny, nax, nay, dx, dy, (steps - 1) as nat)
        }
    }
}

/// The wall that a ray from `(px, py)` with direction `(dx, dy)` meets.
/// The viewer's own cell is never tested.
pub open spec fn ray_hit(grid: &Grid, px: int, py: int, dx: int, dy: int) -> Option<RayHit> {
    ray_walk(
        grid,
        cell_index(px),
        cell_index(py),
        first_boundary(px, dx),
        first_boundary(py, dy),
        dx,
        dy,
        ray_steps(grid),
    )
}

/// Casts a ray from `(px, py)` in the direction `(dx, dy)` and returns
/// the first wall cell it enters, if it enters one within the step bound.
pub fn cast_ray(grid: &Grid, px: i32, py: i32, dx: i32, dy: i32) -> (hit: Option<RayHit>)
    ensures
        hit == ray_hit(grid, px as int, py as int, dx as int, dy as int),
        hit is Some,
        grid.solid(hit->0.map_x as int, hit->0.map_y as int),
{
    let limit: usize = (grid.w() + grid.h()) * 4 + 1;
    proof {
        lemma_ray_always_hits(grid, px as int, py as int, dx as int, dy as int);
    }
    let mut cx: i32 = cell_of(px);
    let mut cy: i32 = cell_of(py);
    let step_x: i32 = if dx < 0 { -1 } else { 1 };
    let step_y: i32 = if dy < 0 { -1 } else { 1 };
    let mut ax: i64 = if dx < 0 {
        px as i64 - cx as i64 * 65536
    } else {
        (cx as i64 + 1) * 65536 - px as i64
    };
    let mut ay: i64 = if dy < 0 {
        py as i64 - cy as i64 * 65536
    } else {
        (cy as i64 + 1) * 65536 - py as i64
    };
    let mut left: usize = limit;
    while left > 0
        invariant
            grid.wf(),
            limit == ray_steps(grid),
            limit <= 262145,
            left <= limit,
            step_x == step_of(dx as int),
            step_y == step_of(dy as int),
            -32768 <= cx <= 32767,
            -32768 <= cy <= 32767,
            0 <= ax <= 65536 + (limit - left) * 65536,
            0 <= ay <= 65536 + (limit - left) * 65536,
            ray_hit(grid, px as int, py as int, dx as int, dy as int) == ray_walk(
                grid,
                cx as int,
                cy as int,
                ax as int,
                ay as int,
                dx as int,
                dy as int,
                left as nat,
            ),
        decreases left,
    {
        let x_first: bool = x_side_first(ax, ay, dx as i64, dy as i64);
        if x_first {
            ax = ax + 65536;
            cx = cx + step_x;
        } else {
            ay = ay + 65536;
            cy = cy + step_y;
        }
        if grid.is_solid(cx, cy) {
            return Some(
                RayHit {
                    map_x: cx,
                    map_y: cy,
                    side: if x_first { Side::X } else { Side::Y },
                    step_x,
                    step_y,
                },
            );
        }
        left = left - 1;
    }
    None
}

/// Size and handle of a texture.
#[derive(Clone, Copy, PartialEq, Eq, Structural, Debug)]
pub struct Texture {
    pub id: u32,
    pub width: i32,
    pub height: i32,
}

/// The vertical strip of wall that one screen column shows.
#[derive(Clone, Copy, PartialEq, Eq, Structural, Debug)]
pub struct WallSlice {
    /// Screen column
    pub x: i32,
    /// First and last screen row of the strip
    pub top: i32,
    pub bottom: i32,
    /// Which wall texture to draw
    pub tex_index: usize,
    /// Texture column to sample
    pub tex_x: i32,
    /// Where the visible part starts in the texture, and how tall it is there,
    /// in fixed-point texels
    pub src_y: i64,
    pub src_h: i64,
    /// Sides that face along y are drawn darker
    pub shaded: bool,
    /// Distance ahead of the viewer to the wall
    pub depth: i64,
}

/// Distance along one axis from the viewer at `p` to the side of the cell
/// `cell` that a ray travelling in direction `step` enters through:
/// `(cell - p) + (1 - step) / 2` in cells.
pub open spec fn face_offset(cell: int, step: int, p: int) -> int {
    cell * 65536 - p + (1 - step) * 32768
}

/// Offset of the side of the wall that was entered, along the axis that
/// the side faces.
pub open spec fn hit_offset(hit: RayHit, px: int, py: int) -> int {
    match hit.side {
        Side::X => face_offset(hit.map_x as int, hit.step_x as int, px),
        Side::Y => face_offset(hit.map_y as int, hit.step_y as int, py),
    }
}

/// The ray direction's component on the axis that the side faces.
pub open spec fn across(hit: RayHit, dx: int, dy: int) -> int {
    match hit.side {
        Side::X => dx,
        Side::Y => dy,
    }
}

/// The ray direction's component along the side.
pub open spec fn sideways(hit: RayHit, dx: int, dy: int) -> int {
    match hit.side {
        Side::X => dy,
        Side::Y => dx,
    }
}

/// How far the ray's direction `(dx, dy)` leads forward, along the facing
/// direction `(fx, fy)`: the size of their inner product.
pub open spec fn forward_part(dx: int, dy: int, fx: int, fy: int) -> int {
    magnitude(dx * fx + dy * fy)
}

/// Distance to a hit, measured along the facing direction `(fx, fy)`, a
/// direction of length one, and not along the ray: the offset of the side
/// that was entered, divided by the ray direction's component on that
/// axis, is how many ray directions the ray travelled; times the forward
/// part of the ray direction it is how far ahead of the viewer the wall
/// was met. Rays to the left and right of the centre are longer than that,
/// but their depth is not. The length of the ray direction does not
/// matter. A zero component across the side gives `DEPTH_FAR`.
pub open spec fn hit_depth(hit: RayHit, px: int, py: int, dx: int, dy: int, fx: int, fy: int) -> int {
    let num = hit_offset(hit, px, py);
    let den = across(hit, dx, dy);
    if den == 0 {
        DEPTH_FAR as int
    } else {
        clamp(
            magnitude(num) * forward_part(dx, dy, fx, fy) / (magnitude(den) * 65536),
            0,
            DEPTH_FAR as int,
        )
    }
}

/// Height on screen of a wall at distance `depth`, in fixed-point pixels:
/// the projection distance divided by the depth. A depth below one step
/// counts as one step.
pub open spec fn slice_height(proj: int, depth: int) -> int {
    div_trunc(proj * 65536, if depth < 1 { 1 } else { depth })
}

/// Upper end of a centred strip of height `line_h`, before clipping.
pub open spec fn raw_top(line_h: int) -> int {
    SCREEN_H as int * 32768 - div_trunc(line_h, 2)
}

/// Lower end of a centred strip of height `line_h`, before clipping.
pub open spec fn raw_bottom(line_h: int) -> int {
    SCREEN_H as int * 32768 + div_trunc(line_h, 2)
}

/// First screen row of the strip.
pub open spec fn visible_top(line_h: int) -> int {
    (if raw_top(line_h) < 0 { 0 } else { raw_top(line_h) }) / 65536
}

/// Last screen row of the strip.
pub open spec fn visible_bottom(line_h: int) -> int {
    let last = (SCREEN_H as int - 1) * 65536;
    div_trunc(if raw_bottom(line_h) > last { last } else { raw_bottom(line_h) }, 65536)
}

/// Texture of a wall id: id `n` has texture `n - 1`; an id without a
/// texture of its own has the first.
pub open spec fn wall_texture_index(tile: int, count: int) -> int {
    if 1 <= tile && tile - 1 < count {
        tile - 1
    } else {
        0
    }
}

/// How far the ray has gone along the side when it meets it.
pub open spec fn side_travel(hit: RayHit, px: int, py: int, dx: int, dy: int) -> int {
    if across(hit, dx, dy) == 0 {
        0
    } else {
        (magnitude(hit_offset(hit, px, py)) * sideways(hit, dx, dy)) / magnitude(
            across(hit, dx, dy),
        )
    }
}

/// How far along the wall's face the ray struck, as a fraction of the cell.
pub open spec fn face_fraction(hit: RayHit, px: int, py: int, dx: int, dy: int) -> int {
    let from = match hit.side {
        Side::X => py,
        Side::Y => px,
    };
    (from + side_travel(hit, px, py, dx, dy)) % 65536
}

/// Whether the texture is mirrored, so that it reads the same way from both
/// sides of a wall.
pub open spec fn mirrored(hit: RayHit, dx: int, dy: int) -> bool {
    (hit.side == Side::X && dx > 0) || (hit.side == Side::Y && dy < 0)
}

/// Texture column for a fraction of the face.
pub open spec fn texture_column(frac: int, tex_w: int, mirror: bool) -> int {
    let tx = div_trunc(frac * tex_w, 65536);
    clamp(if mirror { tex_w - tx - 1 } else { tx }, i32::MIN as int, i32::MAX as int)
}

/// Texture row at which the visible part of the strip starts: zero unless
/// the strip is cut off at the top of the screen.
pub open spec fn source_top(line_h: int, tex_h: int) -> int {
    if raw_top(line_h) < 0 {
        clamp(
            div_trunc(-raw_top(line_h) * tex_h * 65536, if line_h < 1 { 1 } else { line_h }),
            i64::MIN as int,
            i64::MAX as int,
        )
    } else {
        0
    }
}

/// Height in the texture of the visible part of the strip.
pub open spec fn source_height(line_h: int, tex_h: int, rows: int) -> int {
    clamp(
        div_trunc(rows * tex_h * 0x1_0000_0000, if line_h < 1 { 1 } else { line_h }),
        i64::MIN as int,
        i64::MAX as int,
    )
}

/// The strip that column `x` shows of the wall hit by its ray, or nothing
/// where the strip has no visible row.
pub open spec fn wall_slice_of(
    grid: &Grid,
    hit: RayHit,
    px: int,
    py: int,
    dx: int,
    dy: int,
    fx: int,
    fy: int,
    proj: int,
    textures: Seq<Texture>,
    x: int,
) -> Option<WallSlice> {
    let depth = hit_depth(hit, px, py, dx, dy, fx, fy);
    let line_h = slice_height(proj, depth);
    let top = visible_top(line_h);
    let bottom = visible_bottom(line_h);
    if bottom >= top {
        let ti = wall_texture_index(
            grid.occupancy(hit.map_x as int, hit.map_y as int),
            textures.len() as int,
        );
        let tex = textures[ti];
        Some(
            WallSlice {
                x: x as i32,
                top: top as i32,
                bottom: bottom as i32,
                tex_index: ti as usize,
                tex_x: texture_column(
                    face_fraction(hit, px, py, dx, dy),
                    tex.width as int,
                    mirrored(hit, dx, dy),
                ) as i32,
                src_y: source_top(line_h, tex.height as int) as i64,
                src_h: source_height(line_h, tex.height as int, bottom - top + 1) as i64,
                shaded: hit.side == Side::Y,
                depth: depth as i64,
            },
        )
    } else {
        None
    }
}

/// What column `x` shows of the walls: the strip of the wall that the ray
/// with direction `(dx, dy)` meets, if any, for a viewer who faces along
/// `(fx, fy)`.
pub open spec fn wall_column(
    grid: &Grid,
    px: int,
    py: int,
    dx: int,
    dy: int,
    fx: int,
    fy: int,
    proj: int,
    textures: Seq<Texture>,
    x: int,
) -> Option<WallSlice> {
    match ray_hit(grid, px, py, dx, dy) {
        Some(hit) => wall_slice_of(grid, hit, px, py, dx, dy, fx, fy, proj, textures, x),
        None => None,
    }
}

/// Depth that a column enters in the depth buffer.
pub open spec fn column_depth(slice: Option<WallSlice>) -> i64 {
    match slice {
        Some(s) => s.depth,
        None => DEPTH_FAR,
    }
}

/// Angle of the ray through screen column `x`: the viewer's angle plus the
/// column's offset on the camera plane, from -1 at the left edge to 1 at
/// the right, times half the field of view.
pub open spec fn column_angle_of(x: int, angle: int, fov: int) -> int {
    clamp(
        angle + div_trunc((2 * x - SCREEN_W as int) * fov, 2 * SCREEN_W as int),
        i32::MIN as int,
        i32::MAX as int,
    )
}

/// Angle of the ray through screen column `x`.
pub fn column_angle(x: i32, angle: i32, fov: i32) -> (a: i32)
    ensures
        a == column_angle_of(x as int, angle as int, fov as int),
{
    let off: i64 = 2 * (x as i64) - SCREEN_W as i64;
    let n: i128 = mul_wide(off, fov as i64);
    let turn: i128 = div_toward_zero_wide(n, 2 * SCREEN_W as i128);
    assert(-0x1_0000_0000_0000_0000 <= turn <= 0x1_0000_0000_0000_0000) by {
        assert(-0x2_0000_0000 * 0x8000_0000 <= n <= 0x2_0000_0000 * 0x8000_0000)
            by (nonlinear_arith)
            requires
                n == off * fov,
                -0x2_0000_0000 <= off <= 0x2_0000_0000,
                -0x8000_0000 <= fov <= 0x8000_0000,
        ;
    }
    clamp_to_i32(clamp_to_i64(angle as i128 + turn))
}

fn offset_of(hit: &RayHit, px: i32, py: i32) -> (num: i64)
    ensures
        num == hit_offset(*hit, px as int, py as int),
        -0x2_0000_0000_0000 <= num <= 0x2_0000_0000_0000,
{
    match hit.side {
        Side::X => hit.map_x as i64 * 65536 - px as i64 + (1 - hit.step_x as i64) * 32768,
        Side::Y => hit.map_y as i64 * 65536 - py as i64 + (1 - hit.step_y as i64) * 32768,
    }
}

/// Distance from the viewer to a hit, measured along the facing direction
/// `(fx, fy)`: the perpendicular distance, which is the same for every
/// ray that meets a wall square to the view.
pub fn perp_distance(hit: &RayHit, px: i32, py: i32, dx: i32, dy: i32, fx: i32, fy: i32) -> (d: i64)
    ensures
        d == hit_depth(*hit, px as int, py as int, dx as int, dy as int, fx as int, fy as int),
        0 <= d,
{
    let num: i64 = offset_of(hit, px, py);
    let den: i64 = match hit.side {
        Side::X => dx as i64,
        Side::Y => dy as i64,
    };
    if den == 0 {
        return DEPTH_FAR;
    }
    let m: i128 = if num < 0 { -(num as i128) } else { num as i128 };
    let b: i128 = if den < 0 { -(den as i128) } else { den as i128 };
    let ex: i64 = dx as i64;
    let ey: i64 = dy as i64;
    let gx: i64 = fx as i64;
    let gy: i64 = fy as i64;
    assert(-0x4000_0000_0000_0000 <= ex * gx <= 0x4000_0000_0000_0000 && -0x4000_0000_0000_0000
        <= ey * gy <= 0x4000_0000_0000_0000) by (nonlinear_arith)
        requires
            -0x8000_0000 <= ex <= 0x8000_0000,
            -0x8000_0000 <= ey <= 0x8000_0000,
            -0x8000_0000 <= gx <= 0x8000_0000,
            -0x8000_0000 <= gy <= 0x8000_0000,
    ;
    let dot: i128 = (ex * gx) as i128 + (ey * gy) as i128;
    let ahead: i128 = if dot < 0 { -dot } else { dot };
    assert(0 <= m * ahead <= 0x2_0000_0000_0000 * 0x8000_0000_0000_0000) by (nonlinear_arith)
        requires
            0 <= m <= 0x2_0000_0000_0000,
            0 <= ahead <= 0x8000_0000_0000_0000,
    ;
    let q: i128 = div_floor_wide(m * ahead, b * 65536);
    assert(q >= 0) by (nonlinear_arith)
        requires
            q == (m * ahead) / (b * 65536),
            m * ahead >= 0,
            b > 0,
    ;
    clamp_to_i64(q)
}

/// How far along the wall's face the ray struck.
fn fraction_struck(hit: &RayHit, px: i32, py: i32, dx: i32, dy: i32) -> (frac: i64)
    ensures
        frac == face_fraction(*hit, px as int, py as int, dx as int, dy as int),
        0 <= frac < 65536,
{
    let offset: i64 = offset_of(hit, px, py);
    let reach: i64 = if offset < 0 { -offset } else { offset };
    let (over, beside): (i64, i64) = match hit.side {
        Side::X => (dx as i64, dy as i64),
        Side::Y => (dy as i64, dx as i64),
    };
    let travel: i128 = if over == 0 {
        0
    } else {
        let span: i128 = mul_wide(reach, beside);
        assert(-0x2_0000_0000_0000 * 0x8000_0000 <= span <= 0x2_0000_0000_0000 * 0x8000_0000)
            by (nonlinear_arith)
            requires
                span == reach * beside,
                0 <= reach <= 0x2_0000_0000_0000,
                -0x8000_0000 <= beside <= 0x8000_0000,
        ;
        let width: i128 = if over < 0 { -(over as i128) } else { over as i128 };
        let q: i128 = div_floor_wide(span, width);
        assert(-0x2_0000_0000_0000 * 0x8000_0000 - 1 <= q <= 0x2_0000_0000_0000 * 0x8000_0000)
            by (nonlinear_arith)
            requires
                q == (span as int) / (width as int),
                width >= 1,
                -0x2_0000_0000_0000 * 0x8000_0000 <= span <= 0x2_0000_0000_0000 * 0x8000_0000,
        ;
        q
    };
    let base: i128 = match hit.side {
        Side::X => py as i128,
        Side::Y => px as i128,
    };
    let along: i128 = base + travel;
    let cell: i128 = div_floor_wide(along, 65536);
    (along - cell * 65536) as i64
}

fn height_on_screen(proj: i32, depth: i64) -> (line_h: i64)
    ensures
        line_h == slice_height(proj as int, depth as int),
        -0x8000_0000_0000 <= line_h <= 0x8000_0000_0000,
{
    let den: i64 = if depth < 1 { 1 } else { depth };
    proof {
        lemma_height_bounded(proj as int, depth as int);
    }
    div_toward_zero(proj as i64 * 65536, den)
}

fn rows_on_screen(line_h: i64) -> (rows: (i64, i64))
    requires
        -0x8000_0000_0000 <= line_h <= 0x8000_0000_0000,
    ensures
        rows.0 == visible_top(line_h as int),
        rows.1 == visible_bottom(line_h as int),
        0 <= rows.0,
        rows.1 < SCREEN_H,
{
    let half: i64 = line_h / 2;
    let raw_start: i64 = SCREEN_H as i64 * 32768 - half;
    let raw_end: i64 = SCREEN_H as i64 * 32768 + half;
    let last: i64 = (SCREEN_H as i64 - 1) * 65536;
    let top: i64 = (if raw_start < 0 { 0 } else { raw_start }) / 65536;
    let bottom: i64 = (if raw_end > last { last } else { raw_end }) / 65536;
    (top, bottom)
}

fn column_in_texture(frac: i64, tex_w: i32, mirror: bool) -> (tex_x: i32)
    requires
        0 <= frac < 65536,
    ensures
        tex_x == texture_column(frac as int, tex_w as int, mirror),
{
    let w: i64 = tex_w as i64;
    assert(-0x1_0000 * 0x8000_0000 <= frac * w <= 0x1_0000 * 0x8000_0000) by (nonlinear_arith)
        requires
            0 <= frac < 0x1_0000,
            -0x8000_0000 <= w < 0x8000_0000,
    ;
    let tx: i64 = div_toward_zero(frac * w, 65536);
    clamp_to_i32(if mirror { w - tx - 1 } else { tx })
}

fn top_in_texture(line_h: i64, tex_h: i32) -> (src_y: i64)
    requires
        -0x8000_0000_0000 <= line_h <= 0x8000_0000_0000,
    ensures
        src_y == source_top(line_h as int, tex_h as int),
{
    let raw_start: i64 = SCREEN_H as i64 * 32768 - line_h / 2;
    if raw_start < 0 {
        let lh: i64 = if line_h < 1 { 1 } else { line_h };
        let cut: i128 = mul_wide(-raw_start, tex_h as i64);
        assert(-0x8000_0000_0000 * 0x8000_0000 <= cut <= 0x8000_0000_0000 * 0x8000_0000)
            by (nonlinear_arith)
            requires
                cut == (-raw_start) * (tex_h as i64),
                0 <= -raw_start <= 0x8000_0000_0000,
                -0x8000_0000 <= tex_h < 0x8000_0000,
        ;
        clamp_to_i64(div_toward_zero_wide(cut * 65536, lh as i128))
    } else {
        0
    }
}

fn height_in_texture(line_h: i64, tex_h: i32, rows: i64) -> (src_h: i64)
    requires
        0 <= rows <= 1024,
    ensures
        src_h == source_height(line_h as int, tex_h as int, rows as int),
{
    let lh: i64 = if line_h < 1 { 1 } else { line_h };
    let span: i128 = mul_wide(rows, tex_h as i64);
    assert(-1024 * 0x8000_0000 <= span <= 1024 * 0x8000_0000) by (nonlinear_arith)
        requires
            span == rows * (tex_h as i64),
            0 <= rows <= 1024,
            -0x8000_0000 <= tex_h < 0x8000_0000,
    ;
    clamp_to_i64(div_toward_zero_wide(span * 0x1_0000_0000, lh as i128))
}

/// The strip that column `x` shows of the wall at `hit`, for a viewer at
/// `(px, py)` who faces along `(fx, fy)` and looks through the column
/// along `(dx, dy)`.
pub fn wall_slice(
    grid: &Grid,
    hit: &RayHit,
    px: i32,
    py: i32,
    dx: i32,
    dy: i32,
    fx: i32,
    fy: i32,
    proj: i32,
    textures: &[Texture],
    x: i32,
) -> (slice: Option<WallSlice>)
    requires
        textures@.len() > 0,
    ensures
        slice == wall_slice_of(
            grid,
            *hit,
            px as int,
            py as int,
            dx as int,
            dy as int,
            fx as int,
            fy as int,
            proj as int,
            textures@,
            x as int,
        ),
{
    let depth: i64 = perp_distance(hit, px, py, dx, dy, fx, fy);
    let line_h: i64 = height_on_screen(proj, depth);
    let (top, bottom) = rows_on_screen(line_h);
    if bottom < top {
        return None;
    }
    let tile: u8 = grid.at(hit.map_x, hit.map_y);
    let ti: usize = if tile >= 1 && ((tile - 1) as usize) < textures.len() {
        (tile - 1) as usize
    } else {
        0
    };
    let tex: Texture = textures[ti];
    let frac: i64 = fraction_struck(hit, px, py, dx, dy);
    let mirror: bool = match hit.side {
        Side::X => dx > 0,
        Side::Y => dy < 0,
    };
    Some(
        WallSlice {
            x,
            top: top as i32,
            bottom: bottom as i32,
            tex_index: ti,
            tex_x: column_in_texture(frac, tex.width, mirror),
            src_y: top_in_texture(line_h, tex.height),
            src_h: height_in_texture(line_h, tex.height, bottom - top + 1),
            shaded: match hit.side {
                Side::X => false,
                Side::Y => true,
            },
            depth,
        },
    )
}

/// The height of a strip stays within 48 bits.
pub proof fn lemma_height_bounded(proj: int, depth: int)
    requires
        i32::MIN <= proj <= i32::MAX,
    ensures
        -0x8000_0000_0000 <= slice_height(proj, depth) <= 0x8000_0000_0000,
{
    let den = if depth < 1 { 1 } else { depth };
    let n = proj * 65536;
    if n >= 0 {
        assert(0 <= n / den <= n) by (nonlinear_arith)
            requires
                n >= 0,
                den >= 1,
        ;
    } else {
        assert(0 <= (-n) / den <= -n) by (nonlinear_arith)
            requires
                -n >= 0,
                den >= 1,
        ;
    }
}

/// What the walls show in column `x` when the rays of the columns have the
/// directions `dirs`: a column without a direction shows nothing.
pub open spec fn walls_at(
    grid: &Grid,
    px: int,
    py: int,
    fx: int,
    fy: int,
    proj: int,
    dirs: Seq<(i32, i32)>,
    textures: Seq<Texture>,
    x: int,
) -> Option<WallSlice> {
    if 0 <= x < dirs.len() {
        wall_column(grid, px, py, dirs[x].0 as int, dirs[x].1 as int, fx, fy, proj, textures, x)
    } else {
        None
    }
}

/// Casts one ray per screen column from the viewer at `(px, py)`, who
/// faces along `(fx, fy)`; column `x` looks along `dirs[x]`. Returns the
/// depth buffer, one distance ahead of the viewer per column and
/// `DEPTH_FAR` where nothing is shown, and what each column shows.
pub fn cast_walls(
    grid: &Grid,
    px: i32,
    py: i32,
    fx: i32,
    fy: i32,
    proj: i32,
    dirs: &[(i32, i32)],
    textures: &[Texture],
) -> (out: (Vec<i64>, Vec<Option<WallSlice>>))
    requires
        textures@.len() > 0,
    ensures
        out.0@.len() == SCREEN_W,
        out.1@.len() == SCREEN_W,
        forall|x: int|
            0 <= x < SCREEN_W ==> #[trigger] out.1@[x] == walls_at(
                grid,
                px as int,
                py as int,
                fx as int,
                fy as int,
                proj as int,
                dirs@,
                textures@,
                x,
            ),
        forall|x: int| 0 <= x < SCREEN_W ==> #[trigger] out.0@[x] == column_depth(out.1@[x]),
{
    let mut zbuffer: Vec<i64> = Vec::new();
    let mut walls: Vec<Option<WallSlice>> = Vec::new();
    let mut x: i32 = 0;
    while x < SCREEN_W
        invariant
            0 <= x <= SCREEN_W,
            textures@.len() > 0,
            zbuffer@.len() == x,
            walls@.len() == x,
            forall|i: int|
                0 <= i < x ==> #[trigger] walls@[i] == walls_at(
                    grid,
                    px as int,
                    py as int,
                    fx as int,
                    fy as int,
                    proj as int,
                    dirs@,
                    textures@,
                    i,
                ),
            forall|i: int| 0 <= i < x ==> #[trigger] zbuffer@[i] == column_depth(walls@[i]),
        decreases SCREEN_W - x,
    {
        let mut slice: Option<WallSlice> = None;
        if (x as usize) < dirs.len() {
            let dir: (i32, i32) = dirs[x as usize];
            match cast_ray(grid, px, py, dir.0, dir.1) {
                Some(hit) => {
                    slice = wall_slice(grid, &hit, px, py, dir.0, dir.1, fx, fy, proj, textures, x);
                },
                None => {},
            }
        }
        let depth: i64 = match slice {
            Some(s) => s.depth,
            None => DEPTH_FAR,
        };
        zbuffer.push(depth);
        walls.push(slice);
        x = x + 1;
    }
    (zbuffer, walls)
}

/// Height and depth are inversely related: the height times the depth is
/// the projection distance, up to the rounding of one step of height.
pub proof fn lemma_height_inverse_to_depth(proj: int, depth: int)
    requires
        proj >= 0,
        depth >= 1,
    ensures
        slice_height(proj, depth) * depth <= proj * 65536,
        proj * 65536 < (slice_height(proj, depth) + 1) * depth,
{
    let n = proj * 65536;
    vstd::arithmetic::div_mod::lemma_fundamental_div_mod(n, depth);
    vstd::arithmetic::div_mod::lemma_mod_bound(n, depth);
    assert((n / depth) * depth == depth * (n / depth)) by (nonlinear_arith);
    assert((n / depth + 1) * depth == depth * (n / depth) + depth) by (nonlinear_arith);
}

/// A wall farther away is never drawn taller.
pub proof fn lemma_height_shrinks_with_depth(proj: int, near: int, far: int)
    requires
        proj >= 0,
        1 <= near <= far,
    ensures
        slice_height(proj, far) <= slice_height(proj, near),
{
    vstd::arithmetic::div_mod::lemma_div_is_ordered_by_denominator(proj * 65536, near, far);
}

/// Moving the viewer closer to a wall's face strictly decreases the depth
/// of that wall in a column, while the depth is below `DEPTH_FAR` and the
/// move is large enough to show at the grain of the depth: the offset to
/// the face shrinks by at least one step of depth. Where the ray leads
/// forward at least as far as across the face, every move is large enough.
pub proof fn lemma_closer_is_shallower(
    hit: RayHit,
    px1: int,
    py1: int,
    px2: int,
    py2: int,
    dx: int,
    dy: int,
    fx: int,
    fy: int,
)
    requires
        across(hit, dx, dy) != 0,
        magnitude(hit_offset(hit, px2, py2)) < magnitude(hit_offset(hit, px1, py1)),
        (magnitude(hit_offset(hit, px1, py1)) - magnitude(hit_offset(hit, px2, py2)))
            * forward_part(dx, dy, fx, fy) >= magnitude(across(hit, dx, dy)) * 65536,
        hit_depth(hit, px1, py1, dx, dy, fx, fy) < DEPTH_FAR,
    ensures
        hit_depth(hit, px2, py2, dx, dy, fx, fy) < hit_depth(hit, px1, py1, dx, dy, fx, fy),
{
    let near = magnitude(hit_offset(hit, px2, py2));
    let far = magnitude(hit_offset(hit, px1, py1));
    let ahead = forward_part(dx, dy, fx, fy);
    let d = magnitude(across(hit, dx, dy)) * 65536;
    let a = near * ahead;
    let b = far * ahead;
    assert(b - a == (far - near) * ahead) by (nonlinear_arith)
        requires
            a == near * ahead,
            b == far * ahead,
    ;
    assert(a >= 0) by (nonlinear_arith)
        requires
            a == near * ahead,
            near >= 0,
            ahead >= 0,
    ;
    vstd::arithmetic::div_mod::lemma_div_plus_one(a, d);
    vstd::arithmetic::div_mod::lemma_div_is_ordered(a + d, b, d);
    assert(a / d >= 0) by (nonlinear_arith)
        requires
            a >= 0,
            d > 0,
    ;
    assert(a / d < b / d);
}

/// The depth does not go by the length of the ray's direction: a
/// direction `k` times as long gives the same depth.
pub proof fn lemma_depth_ignores_length(
    hit: RayHit,
    px: int,
    py: int,
    dx: int,
    dy: int,
    fx: int,
    fy: int,
    k: int,
)
    requires
        k > 0,
    ensures
        hit_depth(hit, px, py, k * dx, k * dy, fx, fy) == hit_depth(hit, px, py, dx, dy, fx, fy),
{
    let den = across(hit, dx, dy);
    assert(across(hit, k * dx, k * dy) == k * den);
    if den == 0 {
        assert(k * den == 0) by (nonlinear_arith)
            requires
                den == 0,
        ;
    } else {
        let m = magnitude(hit_offset(hit, px, py));
        let ahead = forward_part(dx, dy, fx, fy);
        let d = magnitude(den) * 65536;
        assert(k * den != 0 && magnitude(k * den) == k * magnitude(den)) by (nonlinear_arith)
            requires
                k > 0,
                den != 0,
        ;
        assert(forward_part(k * dx, k * dy, fx, fy) == k * ahead) by (nonlinear_arith)
            requires
                k > 0,
                ahead == magnitude(dx * fx + dy * fy),
                forward_part(k * dx, k * dy, fx, fy) == magnitude(k * dx * fx + k * dy * fy),
        ;
        assert(m * (k * ahead) == k * (m * ahead)) by (nonlinear_arith);
        assert(k * magnitude(den) * 65536 == k * d) by (nonlinear_arith)
            requires
                d == magnitude(den) * 65536,
        ;
        assert(m * ahead >= 0) by (nonlinear_arith)
            requires
                m >= 0,
                ahead >= 0,
        ;
        vstd::arithmetic::div_mod::lemma_div_multiples_vanish_quotient(k, m * ahead, d);
    }
}

/// A wall square to the view has one depth, whichever ray meets it: where
/// the viewer faces straight along the axis that the side faces, the depth
/// is the offset to the side, neither more for a ray that goes far to the
/// left or right nor less.
pub proof fn lemma_depth_square_on(
    hit: RayHit,
    px: int,
    py: int,
    dx: int,
    dy: int,
    fx: int,
    fy: int,
)
    requires
        across(hit, dx, dy) != 0,
        magnitude(across(hit, fx, fy)) == 65536,
        sideways(hit, fx, fy) == 0,
    ensures
        hit_depth(hit, px, py, dx, dy, fx, fy) == clamp(
            magnitude(hit_offset(hit, px, py)),
            0,
            DEPTH_FAR as int,
        ),
{
    let m = magnitude(hit_offset(hit, px, py));
    let d = magnitude(across(hit, dx, dy)) * 65536;
    assert(forward_part(dx, dy, fx, fy) == d) by (nonlinear_arith)
        requires
            forward_part(dx, dy, fx, fy) == magnitude(dx * fx + dy * fy),
            d == magnitude(across(hit, dx, dy)) * 65536,
            (across(hit, dx, dy) == dx && (fx == 65536 || fx == -65536) && fy == 0) || (across(
                hit,
                dx,
                dy,
            ) == dy && (fy == 65536 || fy == -65536) && fx == 0),
    ;
    vstd::arithmetic::div_mod::lemma_div_multiples_vanish(m, d);
    assert(m * d == d * m) by (nonlinear_arith);
}

/// A ray with a direction meets a wall through a side across which it
/// travels: its direction has a component on the axis that the side faces.
pub proof fn lemma_hit_has_component(grid: &Grid, px: int, py: int, dx: int, dy: int)
    requires
        dx != 0 || dy != 0,
        ray_hit(grid, px, py, dx, dy) is Some,
    ensures
        across(ray_hit(grid, px, py, dx, dy)->0, dx, dy) != 0,
{
    lemma_walk_has_component(
        grid,
        cell_index(px),
        cell_index(py),
        first_boundary(px, dx),
        first_boundary(py, dy),
        dx,
        dy,
        ray_steps(grid),
    );
}

proof fn lemma_walk_has_component(
    grid: &Grid,
    cx: int,
    cy: int,
    ax: int,
    ay: int,
    dx: int,
    dy: int,
    steps: nat,
)
    requires
        dx != 0 || dy != 0,
        ax >= 0,
        ay >= 0,
        dy == 0 ==> ay > 0,
        ray_walk(grid, cx, cy, ax, ay, dx, dy, steps) is Some,
    ensures
        across(ray_walk(grid, cx, cy, ax, ay, dx, dy, steps)->0, dx, dy) != 0,
    decreases steps,
{
    let x_first = crosses_x_first(ax, ay, dx, dy);
    let nx = if x_first { cx + step_of(dx) } else { cx };
    let ny = if x_first { cy } else { cy + step_of(dy) };
    let nax = if x_first { ax + 65536 } else { ax };
    let nay = if x_first { ay } else { ay + 65536 };
    if x_first {
        assert(dx != 0) by (nonlinear_arith)
            requires
                ax * magnitude(dy) < ay * magnitude(dx),
                ax >= 0,
                magnitude(dy) >= 0,
        ;
    } else {
        assert(dy != 0) by (nonlinear_arith)
            requires
                !(ax * magnitude(dy) < ay * magnitude(dx)),
                dy == 0 ==> ay > 0,
                dx != 0 || dy != 0,
                magnitude(dx) >= 0,
                magnitude(dy) >= 0,
                dx == 0 ==> magnitude(dx) == 0,
                dx != 0 ==> magnitude(dx) > 0,
                dy == 0 ==> magnitude(dy) == 0,
                ax >= 0,
                ay >= 0,
        ;
    }
    if !grid.solid(nx, ny) {
        lemma_walk_has_component(grid, nx, ny, nax, nay, dx, dy, (steps - 1) as nat);
    }
}

/// Number of cells from the cell `c` to the edge of a side of `size`
/// cells, in the direction of travel, the cell itself counted.
pub open spec fn cells_to_edge(d: int, c: int, size: int) -> int {
    if d < 0 {
        c + 1
    } else {
        size - c
    }
}

/// From a cell inside the grid a ray meets a wall before it has taken as
/// many steps as there are cells to the edges ahead.
proof fn lemma_walk_hits(
    grid: &Grid,
    cx: int,
    cy: int,
    ax: int,
    ay: int,
    dx: int,
    dy: int,
    steps: nat,
)
    requires
        grid.wf(),
        grid.in_bounds(cx, cy),
        steps >= cells_to_edge(dx, cx, grid.spec_w()) + cells_to_edge(dy, cy, grid.spec_h()) - 1,
    ensures
        ray_walk(grid, cx, cy, ax, ay, dx, dy, steps) is Some,
    decreases steps,
{
    let x_first = crosses_x_first(ax, ay, dx, dy);
    let nx = if x_first { cx + step_of(dx) } else { cx };
    let ny = if x_first { cy } else { cy + step_of(dy) };
    let nax = if x_first { ax + 65536 } else { ax };
    let nay = if x_first { ay } else { ay + 65536 };
    if !grid.solid(nx, ny) {
        lemma_walk_hits(grid, nx, ny, nax, nay, dx, dy, (steps - 1) as nat);
    }
}

/// The world is closed: every ray meets a wall, wherever it starts and
/// wherever it points.
pub proof fn lemma_ray_always_hits(grid: &Grid, px: int, py: int, dx: int, dy: int)
    requires
        grid.wf(),
    ensures
        ray_hit(grid, px, py, dx, dy) is Some,
{
    let cx = cell_index(px);
    let cy = cell_index(py);
    let ax = first_boundary(px, dx);
    let ay = first_boundary(py, dy);
    let x_first = crosses_x_first(ax, ay, dx, dy);
    let nx = if x_first { cx + step_of(dx) } else { cx };
    let ny = if x_first { cy } else { cy + step_of(dy) };
    let nax = if x_first { ax + 65536 } else { ax };
    let nay = if x_first { ay } else { ay + 65536 };
    if !grid.solid(nx, ny) {
        lemma_walk_hits(grid, nx, ny, nax, nay, dx, dy, max_steps(grid));
    }
}

/// Whether the ray from `(px, py)` along `(dx, dy)` passes through the
/// inside of the cell `(wx, wy)` somewhere ahead of the viewer.
pub open spec fn ray_crosses(px: int, py: int, dx: int, dy: int, wx: int, wy: int) -> bool {
    exists|n: int, m: int|
        0 < n && 0 < m && #[trigger] strictly_in_cell(px, dx, n, m, wx) && #[trigger] strictly_in_cell(
            py,
            dy,
            n,
            m,
            wy,
        )
}

/// From a cell behind the wall cell `(wx, wy)` on the ray, the walk
/// meets no wall beyond that cell.
proof fn lemma_walk_stops_before(
    grid: &Grid,
    cx: int,
    cy: int,
    ax: int,
    ay: int,
    px: int,
    py: int,
    dx: int,
    dy: int,
    steps: nat,
    wx: int,
    wy: int,
    n: int,
    m: int,
)
    requires
        grid.wf(),
        0 < n,
        0 < m,
        strictly_in_cell(px, dx, n, m, wx),
        strictly_in_cell(py, dy, n, m, wy),
        leaves_at(px, dx, cx, ax),
        leaves_at(py, dy, cy, ay),
        grid.solid(wx, wy),
        lead(dx, cx, wx) >= 0,
        lead(dy, cy, wy) >= 0,
        !(wx == cx && wy == cy),
        -32768 <= cx <= 32767,
        -32768 <= cy <= 32767,
    ensures
        ray_walk(grid, cx, cy, ax, ay, dx, dy, steps) is Some ==> lead(
            dx,
            ray_walk(grid, cx, cy, ax, ay, dx, dy, steps)->0.map_x as int,
            wx,
        ) >= 0 && lead(dy, ray_walk(grid, cx, cy, ax, ay, dx, dy, steps)->0.map_y as int, wy) >= 0,
    decreases steps,
{
    if steps > 0 {
        let x_first = crosses_x_first(ax, ay, dx, dy);
        let nx = if x_first { cx + step_of(dx) } else { cx };
        let ny = if x_first { cy } else { cy + step_of(dy) };
        let nax = if x_first { ax + 65536 } else { ax };
        let nay = if x_first { ay } else { ay + 65536 };
        lemma_travel(px, dx, cx, ax, wx, n, m);
        lemma_travel(py, dy, cy, ay, wy, n, m);
        if x_first {
            if wx == cx {
                lemma_sides_agree(ax, ay, magnitude(dx), magnitude(dy), n, m);
            }
        } else {
            if wy == cy {
                lemma_sides_agree_y(ax, ay, magnitude(dx), magnitude(dy), n, m);
            }
        }
        assert(lead(dx, nx, wx) >= 0);
        assert(lead(dy, ny, wy) >= 0);
        if !grid.solid(nx, ny) {
            lemma_walk_stops_before(grid, nx, ny, nax, nay, px, py, dx, dy, (steps - 1) as nat, wx, wy, n, m);
        }
    }
}

/// The wall that a ray meets is the nearest on its way: every wall cell
/// through whose inside the ray passes lies at the cell that was hit or
/// beyond it, along both axes.
pub proof fn lemma_hit_is_nearest(
    grid: &Grid,
    px: int,
    py: int,
    dx: int,
    dy: int,
    wx: int,
    wy: int,
)
    requires
        grid.wf(),
        i32::MIN <= px <= i32::MAX,
        i32::MIN <= py <= i32::MAX,
        grid.solid(wx, wy),
        ray_crosses(px, py, dx, dy, wx, wy),
        !(wx == cell_index(px) && wy == cell_index(py)),
    ensures
        ray_hit(grid, px, py, dx, dy) is Some,
        lead(dx, ray_hit(grid, px, py, dx, dy)->0.map_x as int, wx) >= 0,
        lead(dy, ray_hit(grid, px, py, dx, dy)->0.map_y as int, wy) >= 0,
{
    lemma_ray_always_hits(grid, px, py, dx, dy);
    let (n, m) = choose|n: int, m: int|
        0 < n && 0 < m && #[trigger] strictly_in_cell(px, dx, n, m, wx) && #[trigger] strictly_in_cell(
            py,
            dy,
            n,
            m,
            wy,
        );
    let cx = cell_index(px);
    let cy = cell_index(py);
    // the cell of a point on the ray is not behind the viewer's
    lemma_not_behind_source(px, dx, wx, n, m);
    lemma_not_behind_source(py, dy, wy, n, m);
    lemma_walk_stops_before(
        grid,
        cx,
        cy,
        first_boundary(px, dx),
        first_boundary(py, dy),
        px,
        py,
        dx,
        dy,
        ray_steps(grid),
        wx,
        wy,
        n,
        m,
    );
}

} // verus!
