//! Damage and the resolution of the player's attacks.
//!
//! Damage to the player is taken by the shield first. A shot strikes the
//! nearest enemy whose screen range covers the column at the centre of the
//! screen and which stands before the wall of that column. A blow of the
//! fist strikes the nearest living enemy in reach there, wall or no wall.

use vstd::prelude::*;
use crate::consts::{PUNCH_COOLDOWN, PUNCH_DAMAGE, PUNCH_RANGE, SCREEN_W};
use crate::fixed::{clamp, clamp_to_i32, fit32};
use crate::raycast::DEPTH_FAR;
use crate::types::{DrawnSprite, Enemy, EnemyState, Player};

verus! {

/// How long an enemy flashes after it was hurt: 0.1 s.
pub const HURT_FLASH: i32 = 6554;

/// What an attack did.
#[derive(Clone, Copy, PartialEq, Eq, Structural, Debug)]
pub enum HitOutcome {
    /// Nothing was struck
    Missed,
    /// An enemy was struck and lives
    Hurt,
    /// An enemy was struck and died of it: one kill
    Killed,
}

/// Shield after `dmg` points of damage: the shield takes as much of the
/// damage as it holds.
pub open spec fn shield_after(shield: int, dmg: int) -> int {
    if dmg <= 0 {
        shield
    } else if shield < dmg {
        0
    } else {
        shield - dmg
    }
}

/// Hit points after `dmg` points of damage: what the shield does not take
/// comes off the hit points, which do not fall below zero.
pub open spec fn hp_after(hp: int, shield: int, dmg: int) -> int {
    if dmg <= 0 || shield >= dmg {
        hp
    } else if hp - (dmg - shield) < 0 {
        0
    } else {
        hp - (dmg - shield)
    }
}

/// The player after `dmg` points of damage.
pub open spec fn damaged(player: Player, dmg: int) -> Player {
    Player {
        hp: hp_after(player.hp as int, player.shield as int, dmg) as i32,
        shield: shield_after(player.shield as int, dmg) as i32,
        ..player
    }
}

/// Applies `dmg` points of damage to the player, to the shield first and
/// then to the hit points. Returns whether the player lost anything, and
/// whether the player died of this damage.
pub fn apply_damage(player: &mut Player, dmg: i32) -> (r: (bool, bool))
    ensures
        final(player).shield == shield_after(old(player).shield as int, dmg as int),
        final(player).hp == hp_after(old(player).hp as int, old(player).shield as int, dmg as int),
        *final(player) == damaged(*old(player), dmg as int),
        r.0 == (final(player).hp != old(player).hp || final(player).shield != old(player).shield),
        r.1 == (old(player).hp > 0 && final(player).hp <= 0),
{
    if dmg <= 0 {
        return (false, false);
    }
    let hp_before: i32 = player.hp;
    let sh_before: i32 = player.shield;
    let was_alive: bool = hp_before > 0;
    if sh_before >= dmg {
        player.shield = sh_before - dmg;
    } else {
        let rest: i64 = dmg as i64 - sh_before as i64;
        let left: i64 = hp_before as i64 - rest;
        player.shield = 0;
        player.hp = if left < 0 { 0 } else { left as i32 };
    }
    let took: bool = player.hp != hp_before || player.shield != sh_before;
    let died_now: bool = was_alive && player.hp <= 0;
    (took, died_now)
}

/// Whether a range covers a screen column.
pub open spec fn covers(r: DrawnSprite, column: int) -> bool {
    r.start_x <= column <= r.end_x
}

/// Whether a shot along `column` can strike the enemy of a range: the
/// range covers the column and the enemy stands before the wall.
pub open spec fn in_line_of_fire(r: DrawnSprite, column: int, wall_depth: i64) -> bool {
    covers(r, column) && r.depth < wall_depth
}

/// Whether a blow of the fist along `column` can strike the enemy of a
/// range: the range covers the column, the enemy is in reach, and it lives.
pub open spec fn in_reach(r: DrawnSprite, column: int, enemies: Seq<Enemy>) -> bool {
    &&& covers(r, column)
    &&& r.depth <= PUNCH_RANGE
    &&& r.idx < enemies.len()
    &&& enemies[r.idx as int].spec_is_alive()
}

/// Whether range `k` is the nearest of the ranges that `eligible` admits,
/// and the first of them where several are equally near.
pub open spec fn is_nearest(
    drawn: Seq<DrawnSprite>,
    eligible: spec_fn(DrawnSprite) -> bool,
    k: int,
) -> bool {
    &&& 0 <= k < drawn.len()
    &&& eligible(drawn[k])
    &&& forall|j: int|
        0 <= j < drawn.len() && eligible(#[trigger] drawn[j]) ==> drawn[j].depth > drawn[k].depth
            || (drawn[j].depth == drawn[k].depth && j >= k)
}

/// Depth of the wall in a column of the depth buffer; `DEPTH_FAR` for a
/// column that the buffer does not hold.
pub open spec fn wall_depth_at(zbuffer: Seq<i64>, column: int) -> i64 {
    if 0 <= column < zbuffer.len() {
        zbuffer[column]
    } else {
        DEPTH_FAR
    }
}

/// The range that a shot along `column` strikes: the nearest among those
/// that cover the column and lie before the wall.
pub fn hitscan_target(drawn: &[DrawnSprite], zbuffer: &[i64], column: i32) -> (target: Option<usize>)
    ensures
        match target {
            Some(k) => is_nearest(
                drawn@,
                |r: DrawnSprite| in_line_of_fire(r, column as int, wall_depth_at(zbuffer@, column as int)),
                k as int,
            ),
            None => forall|j: int|
                0 <= j < drawn@.len() ==> !in_line_of_fire(
                    #[trigger] drawn@[j],
                    column as int,
                    wall_depth_at(zbuffer@, column as int),
                ),
        },
{
    let wall_depth: i64 = if column >= 0 && (column as usize) < zbuffer.len() {
        zbuffer[column as usize]
    } else {
        DEPTH_FAR
    };
    let ghost eligible = |r: DrawnSprite|
        in_line_of_fire(r, column as int, wall_depth_at(zbuffer@, column as int));
    let mut best: Option<usize> = None;
    let mut i: usize = 0;
    while i < drawn.len()
        invariant
            i <= drawn@.len(),
            wall_depth == wall_depth_at(zbuffer@, column as int),
            eligible == (|r: DrawnSprite|
                in_line_of_fire(r, column as int, wall_depth_at(zbuffer@, column as int))),
            match best {
                Some(k) => is_nearest(drawn@.take(i as int), eligible, k as int),
                None => forall|j: int| 0 <= j < i ==> !eligible(#[trigger] drawn@[j]),
            },
        decreases drawn@.len() - i,
    {
        let ds: DrawnSprite = drawn[i];
        let ghost before = drawn@.take(i as int);
        let ghost after = drawn@.take(i + 1);
        assert(forall|j: int| 0 <= j < i ==> before[j] == after[j]);
        assert(after[i as int] == ds);
        if column >= ds.start_x && column <= ds.end_x && ds.depth < wall_depth {
            let better: bool = match best {
                Some(k) => ds.depth < drawn[k].depth,
                None => true,
            };
            if better {
                best = Some(i);
            }
        }
        i = i + 1;
    }
    assert(drawn@.take(drawn@.len() as int) =~= drawn@);
    best
}

/// The range that a blow of the fist along `column` strikes: the nearest
/// among those that cover the column, lie in reach and show a living
/// enemy. Walls do not count.
pub fn melee_target(drawn: &[DrawnSprite], enemies: &[Enemy], column: i32) -> (target: Option<usize>)
    ensures
        match target {
            Some(k) => is_nearest(
                drawn@,
                |r: DrawnSprite| in_reach(r, column as int, enemies@),
                k as int,
            ),
            None => forall|j: int|
                0 <= j < drawn@.len() ==> !in_reach(#[trigger] drawn@[j], column as int, enemies@),
        },
{
    let ghost eligible = |r: DrawnSprite| in_reach(r, column as int, enemies@);
    let mut best: Option<usize> = None;
    let mut i: usize = 0;
    while i < drawn.len()
        invariant
            i <= drawn@.len(),
            eligible == (|r: DrawnSprite| in_reach(r, column as int, enemies@)),
            match best {
                Some(k) => is_nearest(drawn@.take(i as int), eligible, k as int),
                None => forall|j: int| 0 <= j < i ==> !eligible(#[trigger] drawn@[j]),
            },
        decreases drawn@.len() - i,
    {
        let ds: DrawnSprite = drawn[i];
        let ghost before = drawn@.take(i as int);
        let ghost after = drawn@.take(i + 1);
        assert(forall|j: int| 0 <= j < i ==> before[j] == after[j]);
        assert(after[i as int] == ds);
        if ds.start_x <= column && column <= ds.end_x && ds.depth <= PUNCH_RANGE && ds.idx
            < enemies.len() {
            if enemies[ds.idx].is_alive() {
                let better: bool = match best {
                    Some(k) => ds.depth < drawn[k].depth,
                    None => true,
                };
                if better {
                    best = Some(i);
                }
            }
        }
        i = i + 1;
    }
    assert(drawn@.take(drawn@.len() as int) =~= drawn@);
    best
}

/// The enemy after an attack of `damage` points. A dead enemy, or one
/// without hit points, is left as it is. One that loses its last hit point
/// is dead; one that survives flashes.
pub open spec fn struck(e: Enemy, damage: int) -> Enemy {
    if !e.spec_is_alive() {
        e
    } else {
        let hp = clamp(e.hp - damage, i32::MIN as int, i32::MAX as int) as i32;
        if hp <= 0 {
            Enemy { hp, state: EnemyState::Dead, ..e }
        } else {
            Enemy { hp, flash_timer: HURT_FLASH, ..e }
        }
    }
}

/// What an attack of `damage` points does to an enemy.
pub open spec fn strike_outcome(e: Enemy, damage: int) -> HitOutcome {
    if !e.spec_is_alive() {
        HitOutcome::Missed
    } else if e.hp - damage <= 0 {
        HitOutcome::Killed
    } else {
        HitOutcome::Hurt
    }
}

/// Strikes an enemy with `damage` points. A kill is reported once: by the
/// attack that takes the hit points from above zero to zero or below.
pub fn damage_enemy(e: &mut Enemy, damage: i32) -> (outcome: HitOutcome)
    ensures
        *final(e) == struck(*old(e), damage as int),
        outcome == strike_outcome(*old(e), damage as int),
        outcome == HitOutcome::Killed <==> old(e).spec_is_alive() && final(e).hp <= 0,
        !old(e).spec_is_alive() ==> *final(e) == *old(e),
{
    if !e.is_alive() {
        return HitOutcome::Missed;
    }
    e.hp = clamp_to_i32(e.hp as i64 - damage as i64);
    if e.hp <= 0 {
        e.state = EnemyState::Dead;
        HitOutcome::Killed
    } else {
        e.flash_timer = HURT_FLASH;
        HitOutcome::Hurt
    }
}

/// The enemies after a shot of `damage` points at the target range.
pub open spec fn after_attack(
    enemies: Seq<Enemy>,
    drawn: Seq<DrawnSprite>,
    target: Option<usize>,
    damage: int,
) -> Seq<Enemy> {
    match target {
        Some(k) => if drawn[k as int].idx < enemies.len() {
            enemies.update(drawn[k as int].idx as int, struck(enemies[drawn[k as int].idx as int], damage))
        } else {
            enemies
        },
        None => enemies,
    }
}

/// What a shot of `damage` points at the target range does.
pub open spec fn attack_outcome(
    enemies: Seq<Enemy>,
    drawn: Seq<DrawnSprite>,
    target: Option<usize>,
    damage: int,
) -> HitOutcome {
    match target {
        Some(k) => if drawn[k as int].idx < enemies.len() {
            strike_outcome(enemies[drawn[k as int].idx as int], damage)
        } else {
            HitOutcome::Missed
        },
        None => HitOutcome::Missed,
    }
}

fn strike_target(enemies: &mut [Enemy], drawn: &[DrawnSprite], target: Option<usize>, damage: i32) -> (outcome:
    HitOutcome)
    requires
        target is Some ==> target->0 < drawn@.len(),
    ensures
        final(enemies)@ == after_attack(old(enemies)@, drawn@, target, damage as int),
        outcome == attack_outcome(old(enemies)@, drawn@, target, damage as int),
{
    match target {
        Some(k) => {
            let idx: usize = drawn[k].idx;
            if idx < enemies.len() {
                damage_enemy(&mut enemies[idx], damage)
            } else {
                HitOutcome::Missed
            }
        },
        None => HitOutcome::Missed,
    }
}

/// Fires a shot of `damage` points along the column at the centre of the
/// screen. Of the enemies whose range covers that column and which stand
/// before its wall, the nearest is struck; no other enemy changes.
pub fn resolve_hitscan(
    enemies: &mut [Enemy],
    zbuffer: &[i64],
    drawn: &[DrawnSprite],
    damage: i32,
) -> (r: (HitOutcome, Option<usize>))
    ensures
        match r.1 {
            Some(k) => is_nearest(
                drawn@,
                |d: DrawnSprite|
                    in_line_of_fire(d, SCREEN_W as int / 2, wall_depth_at(zbuffer@, SCREEN_W as int / 2)),
                k as int,
            ),
            None => forall|j: int|
                0 <= j < drawn@.len() ==> !in_line_of_fire(
                    #[trigger] drawn@[j],
                    SCREEN_W as int / 2,
                    wall_depth_at(zbuffer@, SCREEN_W as int / 2),
                ),
        },
        final(enemies)@ == after_attack(old(enemies)@, drawn@, r.1, damage as int),
        r.0 == attack_outcome(old(enemies)@, drawn@, r.1, damage as int),
{
    let target: Option<usize> = hitscan_target(drawn, zbuffer, SCREEN_W / 2);
    let outcome: HitOutcome = strike_target(enemies, drawn, target, damage);
    (outcome, target)
}

/// Strikes with the fist along the column at the centre of the screen, if
/// the fist is ready. Of the living enemies in reach whose range covers
/// that column, the nearest is struck, and the fist then rests for
/// `PUNCH_COOLDOWN`. Walls do not shield an enemy from the fist.
pub fn resolve_melee(enemies: &mut [Enemy], player: &mut Player, drawn: &[DrawnSprite]) -> (r: (
    HitOutcome,
    Option<usize>,
))
    ensures
        old(player).punch_cd > 0 ==> {
            &&& r.1 is None
            &&& r.0 == HitOutcome::Missed
            &&& final(enemies)@ == old(enemies)@
            &&& *final(player) == *old(player)
        },
        old(player).punch_cd <= 0 ==> {
            &&& match r.1 {
                Some(k) => is_nearest(
                    drawn@,
                    |d: DrawnSprite| in_reach(d, SCREEN_W as int / 2, old(enemies)@),
                    k as int,
                ),
                None => forall|j: int|
                    0 <= j < drawn@.len() ==> !in_reach(
                        #[trigger] drawn@[j],
                        SCREEN_W as int / 2,
                        old(enemies)@,
                    ),
            }
            &&& final(enemies)@ == after_attack(old(enemies)@, drawn@, r.1, PUNCH_DAMAGE as int)
            &&& r.0 == attack_outcome(old(enemies)@, drawn@, r.1, PUNCH_DAMAGE as int)
            &&& *final(player) == (Player {
                punch_cd: if r.1 is Some {
                    PUNCH_COOLDOWN
                } else {
                    old(player).punch_cd
                },
                ..*old(player)
            })
        },
{
    if player.punch_cd > 0 {
        return (HitOutcome::Missed, None);
    }
    let target: Option<usize> = melee_target(drawn, enemies, SCREEN_W / 2);
    let outcome: HitOutcome = strike_target(enemies, drawn, target, PUNCH_DAMAGE);
    if target.is_some() {
        player.punch_cd = PUNCH_COOLDOWN;
    }
    (outcome, target)
}

/// A shot strikes the nearest enemy in the line of fire and nothing
/// else. `target` is what the shot along `column` found among the ranges
/// of a frame with the depth buffer `zbuffer`. Where no range is in the
/// line of fire no enemy changes. Else the range found is in the line of
/// fire and none in it is nearer; only its enemy changes; if that enemy
/// lives it loses `damage` hit points, is dead exactly if none is left,
/// and the shot counts as a kill exactly then.
pub proof fn lemma_shot_strikes_the_nearest_only(
    enemies: Seq<Enemy>,
    zbuffer: Seq<i64>,
    drawn: Seq<DrawnSprite>,
    column: int,
    target: Option<usize>,
    damage: int,
)
    requires
        match target {
            Some(k) => is_nearest(
                drawn,
                |r: DrawnSprite| in_line_of_fire(r, column, wall_depth_at(zbuffer, column)),
                k as int,
            ),
            None => forall|j: int|
                0 <= j < drawn.len() ==> !in_line_of_fire(
                    #[trigger] drawn[j],
                    column,
                    wall_depth_at(zbuffer, column),
                ),
        },
    ensures
        after_attack(enemies, drawn, target, damage).len() == enemies.len(),
        target is None ==> after_attack(enemies, drawn, target, damage) == enemies
            && attack_outcome(enemies, drawn, target, damage) == HitOutcome::Missed,
        target is Some ==> ({
            let k = target->0 as int;
            let idx = drawn[k].idx as int;
            let after = after_attack(enemies, drawn, target, damage);
            let outcome = attack_outcome(enemies, drawn, target, damage);
            &&& in_line_of_fire(drawn[k], column, wall_depth_at(zbuffer, column))
            &&& forall|j: int|
                0 <= j < drawn.len() && in_line_of_fire(
                    #[trigger] drawn[j],
                    column,
                    wall_depth_at(zbuffer, column),
                ) ==> drawn[k].depth <= drawn[j].depth
            &&& forall|i: int| 0 <= i < enemies.len() && i != idx ==> after[i] == enemies[i]
            &&& idx < enemies.len() && !enemies[idx].spec_is_alive() ==> after[idx] == enemies[idx]
                && outcome == HitOutcome::Missed
            &&& idx < enemies.len() && enemies[idx].spec_is_alive() ==> {
                &&& after[idx].hp == fit32(enemies[idx].hp - damage)
                &&& after[idx].state == EnemyState::Dead <==> after[idx].hp <= 0
                &&& outcome == HitOutcome::Killed <==> after[idx].hp <= 0
                &&& outcome == HitOutcome::Hurt <==> after[idx].hp > 0
                &&& after[idx].x == enemies[idx].x && after[idx].y == enemies[idx].y
                &&& after[idx].weapon == enemies[idx].weapon
            }
            &&& idx >= enemies.len() ==> after == enemies && outcome == HitOutcome::Missed
        }),
{
    let eligible = |r: DrawnSprite| in_line_of_fire(r, column, wall_depth_at(zbuffer, column));
    match target {
        Some(k) => {
            assert(eligible(drawn[k as int]));
            assert forall|j: int|
                0 <= j < drawn.len() && in_line_of_fire(
                    #[trigger] drawn[j],
                    column,
                    wall_depth_at(zbuffer, column),
                ) implies drawn[k as int].depth <= drawn[j].depth by {
                assert(eligible(drawn[j]));
            }
        },
        None => {},
    }
}

} // verus!
