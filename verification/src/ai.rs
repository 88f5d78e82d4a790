//! Enemy behaviour: perception, pursuit with collision, melee and shots.
//!
//! An enemy is idle until the player comes within its detection radius
//! and in its sight; then it chases. An enemy without hit points is dead,
//! and stays dead.

use vstd::prelude::*;
use crate::combat::{apply_damage, damaged};
use crate::fixed::{
    cell_index, cell_of, cell_of_wide, clamp, clamp_to_i64, div_toward_zero,
    div_toward_zero_wide, div_trunc, int_sqrt, is_int_sqrt, isqrt, mul_wide, tick_down,
    ticked_down,
};
use crate::grid::Grid;
use crate::los::{has_los, line_of_sight, magnitude};
use crate::player::cell_open;
use crate::order::{descending, is_descending, lemma_descending_sorts, lemma_insert_position_skips};
use crate::types::{Chest, Color, Decoration, Enemy, EnemyState, Player};

verus! {

/// Half the width of an enemy's footprint: 0.2 cells.
pub const COLLISION_RADIUS: i32 = 13107;

/// How long an enemy flashes after its shot: 0.08 s.
pub const SHOT_FLASH: i32 = 5243;

/// Hit points above which a living enemy is shown unhurt.
pub const HEALTHY_HP: i32 = 40;

pub struct AiCfg {
    /// An idle enemy that sees the player nearer than this begins to chase
    pub detect_radius: i32,
    /// Reach of the enemy's melee
    pub melee_range: i32,
    /// Damage per second of the melee
    pub melee_dps: i32,
    /// Largest distance from which an enemy shoots
    pub shoot_range: i32,
}

/// What the player should be told of.
#[derive(Clone, Copy, PartialEq, Eq, Structural, Debug)]
pub enum Feedback {
    PlayerHurt,
    PlayerDeath,
}

/// Square of the distance between two points.
pub open spec fn dist2(ax: int, ay: int, bx: int, by: int) -> int {
    (bx - ax) * (bx - ax) + (by - ay) * (by - ay)
}

/// Whether a distance, given by its square, is less than `r`.
pub open spec fn nearer_than(d2: int, r: int) -> bool {
    r > 0 && d2 < r * r
}

/// Whether a distance, given by its square, is at most `r`.
pub open spec fn within(d2: int, r: int) -> bool {
    r >= 0 && d2 <= r * r
}

/// Distance that an enemy of the given speed covers in the time `dt`.
pub open spec fn stride(speed: int, dt: int) -> int {
    div_trunc(speed * dt, 65536)
}

/// Displacement along one axis of a step of length `stride` toward a
/// point `dist` away, `delta` of it along the axis. No step is taken
/// toward a point already reached.
pub open spec fn advance(delta: int, dist: int, stride: int) -> int {
    if dist <= 0 {
        0
    } else {
        div_trunc(delta * stride, dist)
    }
}

/// Whether an enemy at `(x, y)` would overlap decoration `d`.
pub open spec fn overlaps(d: Decoration, x: int, y: int) -> bool {
    d.spec_is_blocking() && dist2(x, y, d.x as int, d.y as int) < (COLLISION_RADIUS + d.radius)
        * (COLLISION_RADIUS + d.radius)
}

/// Whether an enemy at `(x, y)` would overlap a blocking decoration.
pub open spec fn blocked_by_decoration(decorations: Seq<Decoration>, x: int, y: int) -> bool {
    exists|i: int| 0 <= i < decorations.len() && overlaps(#[trigger] decorations[i], x, y)
}

/// Whether the enemy may move along x to `nx` while at height `y`: the
/// cells at both ends of its footprint are open and no decoration blocks.
pub open spec fn free_along_x(map: &Grid, decorations: Seq<Decoration>, nx: int, y: int) -> bool {
    &&& map.occupancy(cell_index(nx - COLLISION_RADIUS), cell_index(y)) == 0
    &&& map.occupancy(cell_index(nx + COLLISION_RADIUS), cell_index(y)) == 0
    &&& !blocked_by_decoration(decorations, nx, y)
}

/// Whether the enemy may move along y to `ny` while at `x`.
pub open spec fn free_along_y(map: &Grid, decorations: Seq<Decoration>, x: int, ny: int) -> bool {
    &&& map.occupancy(cell_index(x), cell_index(ny - COLLISION_RADIUS)) == 0
    &&& map.occupancy(cell_index(x), cell_index(ny + COLLISION_RADIUS)) == 0
    &&& !blocked_by_decoration(decorations, x, ny)
}

/// The enemy with its timers counted down by `dt`.
pub open spec fn ticked(e: Enemy, dt: int) -> Enemy {
    Enemy {
        weapon_cd: ticked_down(e.weapon_cd as int, dt) as i32,
        flash_timer: ticked_down(e.flash_timer as int, dt) as i32,
        ..e
    }
}

/// An enemy without hit points after `dt`: it is dead, and the time since
/// its death, counted from zero if it was not dead before, has grown by `dt`.
pub open spec fn laid_to_rest(e: Enemy, dt: int) -> Enemy {
    let since = if e.state == EnemyState::Dead {
        e.death_anim_t as int
    } else {
        0
    };
    Enemy {
        state: EnemyState::Dead,
        death_anim_t: clamp(since + dt, i64::MIN as int, i64::MAX as int) as i64,
        ..e
    }
}

/// An idle enemy begins to chase when the player is nearer than the
/// detection radius and in its sight.
pub open spec fn alerted(e: Enemy, player: Player, cfg: &AiCfg, map: &Grid) -> Enemy {
    if e.state == EnemyState::Idle && nearer_than(
        dist2(e.x as int, e.y as int, player.x as int, player.y as int),
        cfg.detect_radius as int,
    ) && line_of_sight(map, e.x as int, e.y as int, player.x as int, player.y as int) {
        Enemy { state: EnemyState::Chase, ..e }
    } else {
        e
    }
}

/// The enemy after one step toward the player: first along x, then along
/// y, each only if the way is free.
pub open spec fn moved(
    e: Enemy,
    player: Player,
    dt: int,
    map: &Grid,
    decorations: Seq<Decoration>,
) -> Enemy {
    let dist = int_sqrt(dist2(e.x as int, e.y as int, player.x as int, player.y as int));
    let st = stride(e.speed as int, dt);
    let nx = e.x + advance(player.x - e.x, dist, st);
    let x1 = if free_along_x(map, decorations, nx, e.y as int) {
        nx
    } else {
        e.x as int
    };
    let ny = e.y + advance(player.y - e.y, dist, st);
    let y1 = if free_along_y(map, decorations, x1, ny) {
        ny
    } else {
        e.y as int
    };
    Enemy { x: x1 as i32, y: y1 as i32, ..e }
}

/// Points of damage that a melee does in the time `dt`, rounded toward zero.
pub open spec fn melee_points(cfg: &AiCfg, dt: int) -> int {
    div_trunc(cfg.melee_dps * dt, 0x1_0000_0000)
}

/// What the player is told of after `dmg` points of damage: of the death,
/// or else of the hurt, or of nothing if nothing was lost.
pub open spec fn hurt_feedback(player: Player, dmg: int) -> Seq<Feedback> {
    let after = damaged(player, dmg);
    if player.hp > 0 && after.hp <= 0 {
        seq![Feedback::PlayerDeath]
    } else if after.hp != player.hp || after.shield != player.shield {
        seq![Feedback::PlayerHurt]
    } else {
        Seq::empty()
    }
}

/// Whether a chasing enemy at its new place strikes the player in melee.
pub open spec fn strikes(e: Enemy, player: Player, cfg: &AiCfg) -> bool {
    nearer_than(
        dist2(e.x as int, e.y as int, player.x as int, player.y as int),
        cfg.melee_range as int,
    )
}

/// Whether a chasing enemy at its new place shoots: the player is in
/// range and in sight, and the weapon is ready.
pub open spec fn shoots(e: Enemy, player: Player, cfg: &AiCfg, map: &Grid) -> bool {
    &&& within(
        dist2(e.x as int, e.y as int, player.x as int, player.y as int),
        cfg.shoot_range as int,
    )
    &&& e.weapon_cd <= 0
    &&& line_of_sight(map, e.x as int, e.y as int, player.x as int, player.y as int)
}

/// A chasing enemy's turn: it moves, strikes if the player is in reach of
/// its melee, and shoots if it can.
pub open spec fn engage(
    e: Enemy,
    player: Player,
    dt: int,
    cfg: &AiCfg,
    map: &Grid,
    decorations: Seq<Decoration>,
) -> (Enemy, Player, Seq<Feedback>) {
    let m = moved(e, player, dt, map, decorations);
    let melee = strikes(m, player, cfg);
    let struck = if melee {
        damaged(player, melee_points(cfg, dt))
    } else {
        player
    };
    let news = if melee {
        hurt_feedback(player, melee_points(cfg, dt))
    } else {
        Seq::empty()
    };
    if shoots(m, struck, cfg, map) {
        (
            Enemy { weapon_cd: m.weapon.fire_interval, flash_timer: SHOT_FLASH, ..m },
            damaged(struck, m.weapon.damage as int),
            news + hurt_feedback(struck, m.weapon.damage as int),
        )
    } else {
        (m, struck, news)
    }
}

/// The colour that shows an enemy's condition.
pub open spec fn condition_color(e: Enemy) -> Color {
    if e.hp <= 0 {
        Color::DarkGray
    } else if e.flash_timer > 0 {
        Color::Yellow
    } else if e.hp > HEALTHY_HP {
        Color::Orange
    } else {
        Color::Pink
    }
}

/// One enemy's turn in a frame that lasts `dt`: the enemy and the player
/// after it, and what the player is told of. An enemy that is dead or
/// without hit points only rests; the timers of a living one count down
/// before it acts.
pub open spec fn enemy_step(
    e: Enemy,
    player: Player,
    dt: int,
    cfg: &AiCfg,
    map: &Grid,
    decorations: Seq<Decoration>,
) -> (Enemy, Player, Seq<Feedback>) {
    if e.hp <= 0 || e.state == EnemyState::Dead {
        (laid_to_rest(e, dt), player, Seq::empty())
    } else {
        let a = alerted(ticked(e, dt), player, cfg, map);
        let r = if a.state == EnemyState::Chase {
            engage(a, player, dt, cfg, map, decorations)
        } else {
            (a, player, Seq::empty())
        };
        (Enemy { color: condition_color(r.0), ..r.0 }, r.1, r.2)
    }
}

/// The turns of the first `n` enemies, one after the other.
pub open spec fn run_enemies(
    enemies: Seq<Enemy>,
    player: Player,
    dt: int,
    cfg: &AiCfg,
    map: &Grid,
    decorations: Seq<Decoration>,
    n: nat,
) -> (Seq<Enemy>, Player, Seq<Feedback>)
    decreases n,
{
    if n == 0 {
        (enemies, player, Seq::empty())
    } else {
        let before = run_enemies(enemies, player, dt, cfg, map, decorations, (n - 1) as nat);
        let turn = enemy_step(before.0[n - 1], before.1, dt, cfg, map, decorations);
        (before.0.update(n - 1, turn.0), turn.1, before.2 + turn.2)
    }
}

/// The key by which enemies are ordered: the square of their distance to
/// the player.
pub open spec fn distance_key(player: Player) -> spec_fn(Enemy) -> int {
    |e: Enemy| dist2(e.x as int, e.y as int, player.x as int, player.y as int)
}

/// The enemies ordered from the farthest from the player to the nearest.
pub open spec fn farthest_first(enemies: Seq<Enemy>, player: Player) -> Seq<Enemy> {
    descending(enemies, distance_key(player), enemies.len())
}

fn squared_distance(ax: i64, ay: i64, bx: i64, by: i64) -> (d: i128)
    requires
        -0x1_0000_0000 <= ax <= 0x1_0000_0000,
        -0x1_0000_0000 <= ay <= 0x1_0000_0000,
        -0x1_0000_0000 <= bx <= 0x1_0000_0000,
        -0x1_0000_0000 <= by <= 0x1_0000_0000,
    ensures
        d == dist2(ax as int, ay as int, bx as int, by as int),
        0 <= d <= 0x8_0000_0000_0000_0000,
{
    let dx: i64 = bx - ax;
    let dy: i64 = by - ay;
    assert(0 <= dx * dx <= 0x2_0000_0000 * 0x2_0000_0000) by (nonlinear_arith)
        requires
            -0x2_0000_0000 <= dx <= 0x2_0000_0000,
    ;
    assert(0 <= dy * dy <= 0x2_0000_0000 * 0x2_0000_0000) by (nonlinear_arith)
        requires
            -0x2_0000_0000 <= dy <= 0x2_0000_0000,
    ;
    mul_wide(dx, dx) + mul_wide(dy, dy)
}

fn is_nearer_than(d2: i128, r: i32) -> (b: bool)
    ensures
        b == nearer_than(d2 as int, r as int),
{
    r > 0 && d2 < mul_wide(r as i64, r as i64)
}

fn is_within(d2: i128, r: i32) -> (b: bool)
    ensures
        b == within(d2 as int, r as int),
{
    r >= 0 && d2 <= mul_wide(r as i64, r as i64)
}

fn decoration_blocks(decorations: &[Decoration], x: i32, y: i32) -> (b: bool)
    ensures
        b == blocked_by_decoration(decorations@, x as int, y as int),
{
    let mut i: usize = 0;
    while i < decorations.len()
        invariant
            i <= decorations@.len(),
            forall|j: int| 0 <= j < i ==> !overlaps(#[trigger] decorations@[j], x as int, y as int),
        decreases decorations@.len() - i,
    {
        let d: &Decoration = &decorations[i];
        if d.is_blocking() {
            let reach: i64 = COLLISION_RADIUS as i64 + d.radius as i64;
            let d2: i128 = squared_distance(x as i64, y as i64, d.x as i64, d.y as i64);
            if d2 < mul_wide(reach, reach) {
                return true;
            }
        }
        i = i + 1;
    }
    false
}

fn is_free_along_x(map: &Grid, decorations: &[Decoration], nx: i64, y: i32) -> (b: bool)
    requires
        -0x1_0000_0000_0000 <= nx <= 0x1_0000_0000_0000,
    ensures
        b == free_along_x(map, decorations@, nx as int, y as int),
        b ==> 0 <= nx <= i32::MAX,
{
    let r: i64 = COLLISION_RADIUS as i64;
    let cy: i64 = cell_of(y) as i64;
    cell_open(map, cell_of_wide(nx - r), cy) && cell_open(map, cell_of_wide(nx + r), cy)
        && !decoration_blocks(decorations, nx as i32, y)
}

fn is_free_along_y(map: &Grid, decorations: &[Decoration], x: i32, ny: i64) -> (b: bool)
    requires
        -0x1_0000_0000_0000 <= ny <= 0x1_0000_0000_0000,
    ensures
        b == free_along_y(map, decorations@, x as int, ny as int),
        b ==> 0 <= ny <= i32::MAX,
{
    let r: i64 = COLLISION_RADIUS as i64;
    let cx: i64 = cell_of(x) as i64;
    cell_open(map, cx, cell_of_wide(ny - r)) && cell_open(map, cx, cell_of_wide(ny + r))
        && !decoration_blocks(decorations, x, ny as i32)
}

/// A step toward a point is never longer along one axis than the stride.
pub proof fn lemma_advance_bounded(dx: int, dy: int, dist: int, st: int)
    requires
        is_int_sqrt(dx * dx + dy * dy, dist),
    ensures
        -magnitude(st) <= advance(dx, dist, st) <= magnitude(st),
{
    if dist > 0 {
        let a = magnitude(dx);
        let s = magnitude(st);
        assert(a * a == dx * dx) by (nonlinear_arith)
            requires
                a == dx || a == -dx,
        ;
        assert(dy * dy >= 0) by (nonlinear_arith);
        assert(a <= dist) by (nonlinear_arith)
            requires
                a * a < (dist + 1) * (dist + 1),
                a >= 0,
                dist >= 0,
        ;
        assert(a * s <= dist * s) by (nonlinear_arith)
            requires
                0 <= a <= dist,
                s >= 0,
        ;
        vstd::arithmetic::div_mod::lemma_div_is_ordered(a * s, dist * s, dist);
        vstd::arithmetic::div_mod::lemma_div_multiples_vanish(s, dist);
        assert(dist * s == s * dist) by (nonlinear_arith);
        assert((a * s) / dist >= 0) by (nonlinear_arith)
            requires
                a * s >= 0,
                dist > 0,
        ;
        assert(dx * st == a * s || dx * st == -(a * s)) by (nonlinear_arith)
            requires
                a == dx || a == -dx,
                s == st || s == -st,
        ;
    }
}

fn step_toward(delta: i64, dist: u64, st: i64) -> (mv: i64)
    requires
        -0x1_0000_0000 <= delta <= 0x1_0000_0000,
        -0x4000_0000_0000 <= st <= 0x4000_0000_0000,
        dist <= 0x4_0000_0000,
    ensures
        mv == clamp(advance(delta as int, dist as int, st as int), i64::MIN as int, i64::MAX as int),
{
    if dist == 0 {
        return 0;
    }
    let n: i128 = mul_wide(delta, st);
    clamp_to_i64(div_toward_zero_wide(n, dist as i128))
}

/// Moves a chasing enemy one step toward the player.
pub fn move_enemy(e: &mut Enemy, player: &Player, dt: i32, map: &Grid, decorations: &[Decoration])
    ensures
        *final(e) == moved(*old(e), *player, dt as int, map, decorations@),
{
    let d2: i128 = squared_distance(e.x as i64, e.y as i64, player.x as i64, player.y as i64);
    let dist: u64 = isqrt(d2 as u128);
    let sp: i64 = e.speed as i64;
    let t: i64 = dt as i64;
    assert(-0x8000_0000 * 0x8000_0000 <= sp * t <= 0x8000_0000 * 0x8000_0000) by (nonlinear_arith)
        requires
            -0x8000_0000 <= sp <= 0x8000_0000,
            -0x8000_0000 <= t <= 0x8000_0000,
    ;
    let st: i64 = div_toward_zero(sp * t, 65536);
    let dx: i64 = player.x as i64 - e.x as i64;
    let dy: i64 = player.y as i64 - e.y as i64;
    proof {
        assert(dist <= 0x4_0000_0000) by (nonlinear_arith)
            requires
                dist * dist <= d2,
                d2 <= 0x8_0000_0000_0000_0000,
                dist >= 0,
        ;
        assert(dist2(e.x as int, e.y as int, player.x as int, player.y as int) == dx * dx + dy
            * dy);
        lemma_advance_bounded(dx as int, dy as int, dist as int, st as int);
        lemma_advance_bounded(dy as int, dx as int, dist as int, st as int);
    }
    let mvx: i64 = step_toward(dx, dist, st);
    let nx: i64 = e.x as i64 + mvx;
    if is_free_along_x(map, decorations, nx, e.y) {
        e.x = nx as i32;
    }
    let mvy: i64 = step_toward(dy, dist, st);
    let ny: i64 = e.y as i64 + mvy;
    if is_free_along_y(map, decorations, e.x, ny) {
        e.y = ny as i32;
    }
}

fn hurt_player(player: &mut Player, dmg: i32, events: &mut Vec<Feedback>)
    ensures
        *final(player) == damaged(*old(player), dmg as int),
        final(events)@ == old(events)@ + hurt_feedback(*old(player), dmg as int),
{
    let (took, died_now) = apply_damage(player, dmg);
    if died_now {
        events.push(Feedback::PlayerDeath);
    } else if took {
        events.push(Feedback::PlayerHurt);
    }
    assert(events@ =~= old(events)@ + hurt_feedback(*old(player), dmg as int));
}

fn melee_damage(cfg: &AiCfg, dt: i32) -> (dmg: i32)
    ensures
        dmg == melee_points(cfg, dt as int),
{
    let a: i64 = cfg.melee_dps as i64;
    let t: i64 = dt as i64;
    assert(-0x8000_0000 * 0x8000_0000 <= a * t <= 0x8000_0000 * 0x8000_0000) by (nonlinear_arith)
        requires
            -0x8000_0000 <= a <= 0x8000_0000,
            -0x8000_0000 <= t <= 0x8000_0000,
    ;
    let q: i64 = div_toward_zero(a * t, 0x1_0000_0000);
    q as i32
}

/// Gives one enemy its turn in a frame that lasts `dt`. What the player
/// is to be told of is added to `events`.
pub fn step_enemy(
    e: &mut Enemy,
    player: &mut Player,
    dt: i32,
    cfg: &AiCfg,
    map: &Grid,
    decorations: &[Decoration],
    events: &mut Vec<Feedback>,
)
    ensures
        *final(e) == enemy_step(*old(e), *old(player), dt as int, cfg, map, decorations@).0,
        *final(player) == enemy_step(*old(e), *old(player), dt as int, cfg, map, decorations@).1,
        final(events)@ == old(events)@ + enemy_step(
            *old(e),
            *old(player),
            dt as int,
            cfg,
            map,
            decorations@,
        ).2,
{
    if e.hp <= 0 && e.state != EnemyState::Dead {
        e.state = EnemyState::Dead;
        e.death_anim_t = 0;
    }
    if e.state == EnemyState::Dead {
        e.death_anim_t = clamp_to_i64(e.death_anim_t as i128 + dt as i128);
        assert(events@ =~= old(events)@ + Seq::<Feedback>::empty());
        return ;
    }
    e.weapon_cd = tick_down(e.weapon_cd, dt);
    e.flash_timer = tick_down(e.flash_timer, dt);
    let d2: i128 = squared_distance(e.x as i64, e.y as i64, player.x as i64, player.y as i64);
    if e.state == EnemyState::Idle && is_nearer_than(d2, cfg.detect_radius) && has_los(
        map,
        e.x,
        e.y,
        player.x,
        player.y,
    ) {
        e.state = EnemyState::Chase;
    }
    if e.state == EnemyState::Chase {
        move_enemy(e, player, dt, map, decorations);
        let nd2: i128 = squared_distance(e.x as i64, e.y as i64, player.x as i64, player.y as i64);
        if is_nearer_than(nd2, cfg.melee_range) {
            hurt_player(player, melee_damage(cfg, dt), events);
        }
        if is_within(nd2, cfg.shoot_range) && e.weapon_cd <= 0 && has_los(
            map,
            e.x,
            e.y,
            player.x,
            player.y,
        ) {
            hurt_player(player, e.weapon.damage, events);
            e.weapon_cd = e.weapon.fire_interval;
            e.flash_timer = SHOT_FLASH;
        }
        proof {
            let a = alerted(ticked(*old(e), dt as int), *old(player), cfg, map);
            let r = engage(a, *old(player), dt as int, cfg, map, decorations@);
            assert(events@ =~= old(events)@ + r.2);
        }
    } else {
        assert(events@ =~= old(events)@ + Seq::<Feedback>::empty());
    }
    e.color = if e.hp <= 0 {
        Color::DarkGray
    } else if e.flash_timer > 0 {
        Color::Yellow
    } else if e.hp > HEALTHY_HP {
        Color::Orange
    } else {
        Color::Pink
    };
}

/// Orders the enemies from the farthest from the player to the nearest;
/// enemies equally far keep their order.
pub fn sort_by_distance(enemies: &mut [Enemy], player: &Player)
    ensures
        final(enemies)@ == farthest_first(old(enemies)@, *player),
        final(enemies)@.len() == old(enemies)@.len(),
        final(enemies)@.to_multiset() == old(enemies)@.to_multiset(),
        is_descending(final(enemies)@, distance_key(*player)),
{
    let n: usize = enemies.len();
    let mut sorted: Vec<Enemy> = Vec::new();
    let mut keys: Vec<i128> = Vec::new();
    let mut i: usize = 0;
    while i < n
        invariant
            n == enemies@.len(),
            enemies@ == old(enemies)@,
            i <= n,
            sorted@ == descending(enemies@, distance_key(*player), i as nat),
            sorted@.len() == i,
            keys@.len() == i,
            forall|k: int| 0 <= k < i ==> #[trigger] keys@[k] == distance_key(*player)(sorted@[k]),
        decreases n - i,
    {
        let e: Enemy = enemies[i];
        let key: i128 = squared_distance(e.x as i64, e.y as i64, player.x as i64, player.y as i64);
        let mut pos: usize = sorted.len();
        while pos > 0 && keys[pos - 1] < key
            invariant
                pos <= sorted@.len(),
                keys@.len() == sorted@.len(),
                forall|k: int|
                    0 <= k < sorted@.len() ==> #[trigger] keys@[k] == distance_key(*player)(
                        sorted@[k],
                    ),
                forall|k: int|
                    pos <= k < sorted@.len() ==> distance_key(*player)(#[trigger] sorted@[k])
                        < key,
            decreases pos,
        {
            pos = pos - 1;
        }
        proof {
            lemma_insert_position_skips(sorted@, distance_key(*player), key as int, pos as int);
        }
        sorted.insert(pos, e);
        keys.insert(pos, key);
        i = i + 1;
    }
    proof {
        lemma_descending_sorts(old(enemies)@, distance_key(*player), n as nat);
        assert(old(enemies)@.take(n as int) =~= old(enemies)@);
    }
    let mut j: usize = 0;
    while j < n
        invariant
            n == enemies@.len(),
            n == sorted@.len(),
            j <= n,
            forall|k: int| 0 <= k < j ==> #[trigger] enemies@[k] == sorted@[k],
        decreases n - j,
    {
        enemies[j] = sorted[j];
        j = j + 1;
    }
    assert(enemies@ =~= sorted@);
}

/// Gives every enemy its turn in a frame that lasts `dt`: the enemies are
/// ordered from the farthest from the player to the nearest and then take
/// their turns in that order. Returns what the player is to be told of.
/// Chests do not stand in an enemy's way.
pub fn update_enemies(
    enemies: &mut [Enemy],
    player: &mut Player,
    dt: i32,
    cfg: &AiCfg,
    map: &Grid,
    decorations: &[Decoration],
    chests: &[Chest],
) -> (events: Vec<Feedback>)
    ensures
        ({
            let ordered = farthest_first(old(enemies)@, *old(player));
            let result = run_enemies(
                ordered,
                *old(player),
                dt as int,
                cfg,
                map,
                decorations@,
                ordered.len(),
            );
            &&& final(enemies)@ == result.0
            &&& *final(player) == result.1
            &&& events@ == result.2
        }),
        final(enemies)@.len() == old(enemies)@.len(),
{
    sort_by_distance(enemies, player);
    let ghost ordered = enemies@;
    let n: usize = enemies.len();
    let mut events: Vec<Feedback> = Vec::new();
    let mut i: usize = 0;
    while i < n
        invariant
            n == enemies@.len(),
            n == ordered.len(),
            i <= n,
            enemies@ == run_enemies(
                ordered,
                *old(player),
                dt as int,
                cfg,
                map,
                decorations@,
                i as nat,
            ).0,
            *player == run_enemies(
                ordered,
                *old(player),
                dt as int,
                cfg,
                map,
                decorations@,
                i as nat,
            ).1,
            events@ == run_enemies(
                ordered,
                *old(player),
                dt as int,
                cfg,
                map,
                decorations@,
                i as nat,
            ).2,
        decreases n - i,
    {
        step_enemy(&mut enemies[i], player, dt, cfg, map, decorations, &mut events);
        i = i + 1;
    }
    events
}

/// An idle enemy that has no line of sight to the player stays idle and
/// where it is, however near the player may be, and does the player no harm.
pub proof fn lemma_idle_without_sight_stays_idle(
    e: Enemy,
    player: Player,
    dt: int,
    cfg: &AiCfg,
    map: &Grid,
    decorations: Seq<Decoration>,
)
    requires
        e.state == EnemyState::Idle,
        e.hp > 0,
        !line_of_sight(map, e.x as int, e.y as int, player.x as int, player.y as int),
    ensures
        enemy_step(e, player, dt, cfg, map, decorations).0.state == EnemyState::Idle,
        enemy_step(e, player, dt, cfg, map, decorations).0.x == e.x,
        enemy_step(e, player, dt, cfg, map, decorations).0.y == e.y,
        enemy_step(e, player, dt, cfg, map, decorations).1 == player,
        enemy_step(e, player, dt, cfg, map, decorations).2.len() == 0,
{
}

/// An idle enemy that sees the player nearer than the detection radius
/// chases after its next turn.
pub proof fn lemma_idle_with_sight_chases(
    e: Enemy,
    player: Player,
    dt: int,
    cfg: &AiCfg,
    map: &Grid,
    decorations: Seq<Decoration>,
)
    requires
        e.state == EnemyState::Idle,
        e.hp > 0,
        nearer_than(
            dist2(e.x as int, e.y as int, player.x as int, player.y as int),
            cfg.detect_radius as int,
        ),
        line_of_sight(map, e.x as int, e.y as int, player.x as int, player.y as int),
    ensures
        enemy_step(e, player, dt, cfg, map, decorations).0.state == EnemyState::Chase,
{
}

/// Death is final. An enemy that is dead or without hit points is dead
/// after its turn, and nothing of it has changed but its state and the
/// time since its death: not its place, its hit points, its weapon, its
/// timers or its colour. The player is untouched. For an enemy already
/// dead the time since its death has grown by `dt`, as long as it can be
/// counted.
pub proof fn lemma_dead_stays_dead(
    e: Enemy,
    player: Player,
    dt: int,
    cfg: &AiCfg,
    map: &Grid,
    decorations: Seq<Decoration>,
)
    requires
        e.hp <= 0 || e.state == EnemyState::Dead,
    ensures
        enemy_step(e, player, dt, cfg, map, decorations).0 == (Enemy {
            state: EnemyState::Dead,
            death_anim_t: enemy_step(e, player, dt, cfg, map, decorations).0.death_anim_t,
            ..e
        }),
        enemy_step(e, player, dt, cfg, map, decorations).1 == player,
        enemy_step(e, player, dt, cfg, map, decorations).2.len() == 0,
        e.state == EnemyState::Dead && dt > 0 && e.death_anim_t + dt <= i64::MAX ==> enemy_step(
            e,
            player,
            dt,
            cfg,
            map,
            decorations,
        ).0.death_anim_t == e.death_anim_t + dt && enemy_step(
            e,
            player,
            dt,
            cfg,
            map,
            decorations,
        ).0.death_anim_t > e.death_anim_t,
{
}

/// The turns of the first `n` enemies leave the others as they were, and
/// the number of enemies as it was.
pub proof fn lemma_turns_touch_their_own(
    enemies: Seq<Enemy>,
    player: Player,
    dt: int,
    cfg: &AiCfg,
    map: &Grid,
    decorations: Seq<Decoration>,
    n: nat,
)
    requires
        n <= enemies.len(),
    ensures
        run_enemies(enemies, player, dt, cfg, map, decorations, n).0.len() == enemies.len(),
        forall|j: int|
            n <= j < enemies.len() ==> #[trigger] run_enemies(
                enemies,
                player,
                dt,
                cfg,
                map,
                decorations,
                n,
            ).0[j] == enemies[j],
    decreases n,
{
    if n > 0 {
        lemma_turns_touch_their_own(enemies, player, dt, cfg, map, decorations, (n - 1) as nat);
    }
}

/// A whole frame changes nothing of a dead enemy but the time since its
/// death, whatever the other enemies and the player do: after the turns
/// of the first `n` enemies, an enemy among them that was dead, or
/// without hit points, is as `laid_to_rest` leaves it.
pub proof fn lemma_frame_rests_the_dead(
    enemies: Seq<Enemy>,
    player: Player,
    dt: int,
    cfg: &AiCfg,
    map: &Grid,
    decorations: Seq<Decoration>,
    n: nat,
    i: int,
)
    requires
        0 <= i < n <= enemies.len(),
        enemies[i].hp <= 0 || enemies[i].state == EnemyState::Dead,
    ensures
        run_enemies(enemies, player, dt, cfg, map, decorations, n).0[i] == laid_to_rest(
            enemies[i],
            dt,
        ),
        laid_to_rest(enemies[i], dt) == (Enemy {
            state: EnemyState::Dead,
            death_anim_t: laid_to_rest(enemies[i], dt).death_anim_t,
            ..enemies[i]
        }),
    decreases n,
{
    lemma_turns_touch_their_own(enemies, player, dt, cfg, map, decorations, (n - 1) as nat);
    if i < n - 1 {
        lemma_frame_rests_the_dead(enemies, player, dt, cfg, map, decorations, (n - 1) as nat, i);
    }
}

} // verus!
