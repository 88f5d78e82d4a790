//! The player's movement: turning, and walking along the facing direction
//! as far as the walls allow.

use vstd::prelude::*;
use crate::fixed::{
    cell_index, cell_of, cell_of_wide, clamp, clamp_to_i32, div_toward_zero,
    div_toward_zero_wide, div_trunc, mul_wide,
};
use crate::grid::Grid;
use crate::types::{Chest, Decoration, Player};

verus! {

/// Half a turn in radians.
pub const PI: i32 = 205887;

pub struct MoveCfg {
    /// Cells per second
    pub move_speed: i32,
    /// Radians per second
    pub rot_speed: i32,
}

/// The movement keys that are held down.
#[derive(Clone, Copy)]
pub struct Keys {
    pub left: bool,
    pub right: bool,
    pub forward: bool,
    pub back: bool,
}

/// A rate applied for the time `dt`.
pub open spec fn over_time(rate: int, dt: int) -> int {
    div_trunc(rate * dt, 65536)
}

/// An angle brought back toward the range from `-PI` to `PI` by at most
/// one full turn each way.
pub open spec fn wrapped(a: int) -> int {
    let down = if a > PI {
        a - 2 * PI
    } else {
        a
    };
    if down < -PI {
        down + 2 * PI
    } else {
        down
    }
}

/// The facing angle after the turn keys have acted for the time `dt`.
pub open spec fn turned(angle: int, keys: Keys, rot_speed: int, dt: int) -> int {
    let left = if keys.left {
        angle - over_time(rot_speed, dt)
    } else {
        angle
    };
    let both = if keys.right {
        left + over_time(rot_speed, dt)
    } else {
        left
    };
    clamp(wrapped(both), i32::MIN as int, i32::MAX as int)
}

/// Distance along one axis that the player walks in the time `dt` when
/// the facing direction has the component `dir` there.
pub open spec fn pace(dir: int, move_speed: int, dt: int) -> int {
    div_trunc(dir * over_time(move_speed, dt), 65536)
}

/// Where the player wants to be along one axis.
pub open spec fn wanted(at: int, keys: Keys, pace: int) -> int {
    at + (if keys.forward {
        pace
    } else {
        0
    }) - (if keys.back {
        pace
    } else {
        0
    })
}

/// The player after walking: along x if the cell there is open, then
/// along y if the cell there is open.
pub open spec fn walked(
    player: Player,
    keys: Keys,
    cfg: &MoveCfg,
    dt: int,
    dir_x: int,
    dir_y: int,
    map: &Grid,
) -> Player {
    let nx = wanted(player.x as int, keys, pace(dir_x, cfg.move_speed as int, dt));
    let ny = wanted(player.y as int, keys, pace(dir_y, cfg.move_speed as int, dt));
    let x1 = if map.occupancy(cell_index(nx), cell_index(player.y as int)) == 0 {
        nx
    } else {
        player.x as int
    };
    let y1 = if map.occupancy(cell_index(x1), cell_index(ny)) == 0 {
        ny
    } else {
        player.y as int
    };
    Player { x: x1 as i32, y: y1 as i32, ..player }
}

fn rate_over(rate: i32, dt: i32) -> (d: i64)
    ensures
        d == over_time(rate as int, dt as int),
        -0x4000_0000_0000 <= d <= 0x4000_0000_0000,
{
    let r: i64 = rate as i64;
    let t: i64 = dt as i64;
    assert(-0x8000_0000 * 0x8000_0000 <= r * t <= 0x8000_0000 * 0x8000_0000) by (nonlinear_arith)
        requires
            -0x8000_0000 <= r <= 0x8000_0000,
            -0x8000_0000 <= t <= 0x8000_0000,
    ;
    div_toward_zero(r * t, 65536)
}

/// Turns the player: left and right at the turning speed, the angle kept
/// within half a turn of zero.
pub fn turn_player(player: &mut Player, keys: &Keys, cfg: &MoveCfg, dt: i32)
    ensures
        *final(player) == (Player {
            angle: turned(old(player).angle as int, *keys, cfg.rot_speed as int, dt as int) as i32,
            ..*old(player)
        }),
{
    let turn: i64 = rate_over(cfg.rot_speed, dt);
    let mut a: i64 = player.angle as i64;
    if keys.left {
        a = a - turn;
    }
    if keys.right {
        a = a + turn;
    }
    if a > PI as i64 {
        a = a - 2 * PI as i64;
    }
    if a < -(PI as i64) {
        a = a + 2 * PI as i64;
    }
    player.angle = clamp_to_i32(a);
}

/// Whether a cell is open floor; the cell may lie anywhere.
pub fn cell_open(map: &Grid, cx: i64, cy: i64) -> (b: bool)
    ensures
        b == (map.occupancy(cx as int, cy as int) == 0),
        b ==> 0 <= cx < 32768 && 0 <= cy < 32768,
{
    let w: usize = map.w();
    if cx < -2147483648i64 || cx > 2147483647i64 || cy < -2147483648i64 || cy > 2147483647i64 {
        return false;
    }
    map.at(cx as i32, cy as i32) == 0
}

fn axis_pace(dir: i32, step: i64) -> (p: i64)
    requires
        -0x4000_0000_0000 <= step <= 0x4000_0000_0000,
    ensures
        p == div_trunc(dir * step, 65536),
        -0x2000_0000_0000_0000 <= p <= 0x2000_0000_0000_0000,
{
    let n: i128 = mul_wide(dir as i64, step);
    assert(-0x8000_0000 * 0x4000_0000_0000 <= n <= 0x8000_0000 * 0x4000_0000_0000)
        by (nonlinear_arith)
        requires
            n == dir * step,
            -0x8000_0000 <= dir <= 0x8000_0000,
            -0x4000_0000_0000 <= step <= 0x4000_0000_0000,
    ;
    let q: i128 = div_toward_zero_wide(n, 65536);
    q as i64
}

/// Walks the player for the time `dt` along `(dir_x, dir_y)`, the
/// direction of the facing angle: forward, back, or not at all when both
/// keys or neither are held. Each axis moves only if the cell entered is
/// open. Neither decorations nor chests stop the player.
pub fn handle_input(
    player: &mut Player,
    keys: &Keys,
    cfg: &MoveCfg,
    dt: i32,
    dir_x: i32,
    dir_y: i32,
    map: &Grid,
    decorations: &[Decoration],
    chests: &[Chest],
)
    ensures
        *final(player) == walked(
            *old(player),
            *keys,
            cfg,
            dt as int,
            dir_x as int,
            dir_y as int,
            map,
        ),
{
    let step: i64 = rate_over(cfg.move_speed, dt);
    let px: i64 = axis_pace(dir_x, step);
    let py: i64 = axis_pace(dir_y, step);
    let mut nx: i64 = player.x as i64;
    let mut ny: i64 = player.y as i64;
    if keys.forward {
        nx = nx + px;
        ny = ny + py;
    }
    if keys.back {
        nx = nx - px;
        ny = ny - py;
    }
    if cell_open(map, cell_of_wide(nx), cell_of(player.y) as i64) {
        player.x = nx as i32;
    }
    if cell_open(map, cell_of(player.x) as i64, cell_of_wide(ny)) {
        player.y = ny as i32;
    }
}

} // verus!
