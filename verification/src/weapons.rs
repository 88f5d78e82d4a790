//! The weapon in hand: cadence, magazine, reload, and the shot itself.

use vstd::prelude::*;
use vstd::array::spec_array_update;
use crate::combat::{
    after_attack, attack_outcome, in_line_of_fire, is_nearest, resolve_hitscan, wall_depth_at,
    HitOutcome,
};
use crate::consts::SCREEN_W;
use crate::fixed::{clamp_to_i32, fit32, tick_down, ticked_down};
use crate::types::{DrawnSprite, Enemy, Item, Player, SlotItem, Weapon, WeaponState};

verus! {

/// What the weapon did in a frame.
#[derive(Clone, Copy, PartialEq, Eq, Structural, Debug)]
pub enum WeaponAction {
    /// Nothing to report
    Idle,
    /// A reload began
    ReloadStarted,
    /// A shot left the barrel
    Fired,
}

/// Rounds that a finished reload moves from the reserve to the magazine:
/// what the magazine lacks, as far as the reserve goes.
pub open spec fn rounds_loaded(w: Weapon, ws: WeaponState, pool: i32) -> int {
    let need = if w.mag_size - ws.ammo_in_mag < 0 {
        0
    } else {
        w.mag_size - ws.ammo_in_mag
    };
    if need < pool {
        need
    } else {
        pool as int
    }
}

/// Whether a reload in progress ends within the time `dt`.
pub open spec fn reload_ends(ws: WeaponState, dt: int) -> bool {
    ws.reloading && ws.reload_cd - dt <= 0
}

/// The weapon's state and the reserve after the time `dt`: the cadence
/// timer runs down, and a reload that ends fills the magazine.
pub open spec fn weapon_ticked(w: Weapon, ws: WeaponState, pool: i32, dt: int) -> (
    WeaponState,
    i32,
) {
    let cd = ticked_down(ws.weapon_cd as int, dt) as i32;
    if reload_ends(ws, dt) {
        (
            WeaponState {
                weapon_cd: cd,
                ammo_in_mag: fit32(ws.ammo_in_mag + rounds_loaded(w, ws, pool)),
                reloading: false,
                reload_cd: 0,
            },
            fit32(pool - rounds_loaded(w, ws, pool)),
        )
    } else if ws.reloading {
        (WeaponState { weapon_cd: cd, reload_cd: fit32(ws.reload_cd - dt), ..ws }, pool)
    } else {
        (WeaponState { weapon_cd: cd, ..ws }, pool)
    }
}

/// The weapon's state with a reload begun.
pub open spec fn reload_begun(w: Weapon, ws: WeaponState) -> WeaponState {
    WeaponState { reloading: true, reload_cd: w.spec_effective_reload() as i32, ..ws }
}

/// One frame of the weapon in hand. After the timers: a reload begins on
/// request if the magazine is not full and the reserve not empty; else,
/// with the trigger held and the weapon ready, a shot is fired if a round
/// is in the magazine, or a reload begins if the reserve holds any.
pub open spec fn weapon_step(
    w: Weapon,
    ws: WeaponState,
    pool: i32,
    dt: int,
    reload_pressed: bool,
    fire_down: bool,
) -> (WeaponState, i32, WeaponAction) {
    let t = weapon_ticked(w, ws, pool, dt);
    if reload_pressed && !t.0.reloading && t.0.ammo_in_mag < w.mag_size && t.1 > 0 {
        (reload_begun(w, t.0), t.1, WeaponAction::ReloadStarted)
    } else if fire_down && !t.0.reloading && t.0.weapon_cd <= 0 {
        if t.0.ammo_in_mag > 0 {
            (
                WeaponState {
                    ammo_in_mag: (t.0.ammo_in_mag - 1) as i32,
                    weapon_cd: w.fire_interval,
                    ..t.0
                },
                t.1,
                WeaponAction::Fired,
            )
        } else if t.1 > 0 {
            (reload_begun(w, t.0), t.1, WeaponAction::ReloadStarted)
        } else {
            (t.0, t.1, WeaponAction::Idle)
        }
    } else {
        (t.0, t.1, WeaponAction::Idle)
    }
}

/// Runs the weapon in hand for one frame of length `dt`. `pool` is the
/// reserve of the weapon's ammunition.
pub fn operate_weapon(
    w: &Weapon,
    ws: &mut WeaponState,
    pool: &mut i32,
    dt: i32,
    reload_pressed: bool,
    fire_down: bool,
) -> (action: WeaponAction)
    ensures
        (*final(ws), *final(pool), action) == weapon_step(
            *w,
            *old(ws),
            *old(pool),
            dt as int,
            reload_pressed,
            fire_down,
        ),
{
    ws.weapon_cd = tick_down(ws.weapon_cd, dt);
    if ws.reloading {
        let left: i64 = ws.reload_cd as i64 - dt as i64;
        if left <= 0 {
            let lack: i64 = w.mag_size as i64 - ws.ammo_in_mag as i64;
            let need: i64 = if lack < 0 { 0 } else { lack };
            let take: i64 = if need < *pool as i64 { need } else { *pool as i64 };
            ws.ammo_in_mag = clamp_to_i32(ws.ammo_in_mag as i64 + take);
            *pool = clamp_to_i32(*pool as i64 - take);
            ws.reloading = false;
            ws.reload_cd = 0;
        } else {
            ws.reload_cd = clamp_to_i32(left);
        }
    }
    if reload_pressed && !ws.reloading && ws.ammo_in_mag < w.mag_size && *pool > 0 {
        ws.reloading = true;
        ws.reload_cd = w.effective_reload();
        return WeaponAction::ReloadStarted;
    }
    if fire_down && !ws.reloading && ws.weapon_cd <= 0 {
        if ws.ammo_in_mag > 0 {
            ws.ammo_in_mag = ws.ammo_in_mag - 1;
            ws.weapon_cd = w.fire_interval;
            return WeaponAction::Fired;
        } else if *pool > 0 {
            ws.reloading = true;
            ws.reload_cd = w.effective_reload();
            return WeaponAction::ReloadStarted;
        }
    }
    WeaponAction::Idle
}

/// The weapon in the player's hand with its state, if the chosen slot
/// holds a weapon.
pub open spec fn weapon_in_hand(player: Player) -> Option<(Weapon, WeaponState)> {
    match player.selected {
        Some(si) => if si < 5 {
            match player.slots[si as int] {
                Some(slot) => match slot.item {
                    Item::Weapon(w, ws) => Some((w, ws)),
                    Item::Consumable(_) => None,
                },
                None => None,
            }
        } else {
            None
        },
        None => None,
    }
}

/// The player with the weapon in hand in the state `ws` and the reserve
/// of its ammunition at `pool`.
pub open spec fn with_weapon_state(player: Player, ws: WeaponState, pool: i32) -> Player {
    let si = player.selected->0 as int;
    let slot = player.slots[si]->0;
    let w = (weapon_in_hand(player)->0).0;
    Player {
        slots: spec_array_update(
            player.slots,
            si,
            Some(SlotItem { item: Item::Weapon(w, ws), ..slot }),
        ),
        ammo_reserve: spec_array_update(player.ammo_reserve, w.ammo_type.spec_index(), pool),
        ..player
    }
}

/// One frame of the weapon in the player's hand. Where the chosen slot
/// holds a weapon, the weapon runs for the frame; a shot that leaves the
/// barrel strikes, with the weapon's damage for its rarity, the nearest
/// enemy in the line of fire along the column at the centre of the
/// screen. Returns what the weapon did and what the shot did.
pub fn fire_control(
    player: &mut Player,
    enemies: &mut [Enemy],
    zbuffer: &[i64],
    drawn: &[DrawnSprite],
    dt: i32,
    reload_pressed: bool,
    fire_down: bool,
) -> (r: (WeaponAction, HitOutcome))
    ensures
        weapon_in_hand(*old(player)) is None ==> {
            &&& *final(player) == *old(player)
            &&& final(enemies)@ == old(enemies)@
            &&& r == (WeaponAction::Idle, HitOutcome::Missed)
        },
        weapon_in_hand(*old(player)) is Some ==> ({
            let w = (weapon_in_hand(*old(player))->0).0;
            let step = weapon_step(
                w,
                (weapon_in_hand(*old(player))->0).1,
                old(player).ammo_reserve[w.ammo_type.spec_index()],
                dt as int,
                reload_pressed,
                fire_down,
            );
            &&& *final(player) == with_weapon_state(*old(player), step.0, step.1)
            &&& r.0 == step.2
            &&& step.2 != WeaponAction::Fired ==> final(enemies)@ == old(enemies)@ && r.1
                == HitOutcome::Missed
            &&& step.2 == WeaponAction::Fired ==> exists|target: Option<usize>|
                {
                    &&& match target {
                        Some(k) => is_nearest(
                            drawn@,
                            |d: DrawnSprite|
                                in_line_of_fire(
                                    d,
                                    SCREEN_W as int / 2,
                                    wall_depth_at(zbuffer@, SCREEN_W as int / 2),
                                ),
                            k as int,
                        ),
                        None => forall|j: int|
                            0 <= j < drawn@.len() ==> !in_line_of_fire(
                                #[trigger] drawn@[j],
                                SCREEN_W as int / 2,
                                wall_depth_at(zbuffer@, SCREEN_W as int / 2),
                            ),
                    }
                    &&& final(enemies)@ == #[trigger] after_attack(
                        old(enemies)@,
                        drawn@,
                        target,
                        w.spec_effective_damage(),
                    )
                    &&& r.1 == attack_outcome(
                        old(enemies)@,
                        drawn@,
                        target,
                        w.spec_effective_damage(),
                    )
                }
        }),
{
    let si: usize = match player.selected {
        Some(si) => si,
        None => {
            return (WeaponAction::Idle, HitOutcome::Missed);
        },
    };
    if si >= 5 {
        return (WeaponAction::Idle, HitOutcome::Missed);
    }
    let slot: SlotItem = match player.slots[si] {
        Some(s) => s,
        None => {
            return (WeaponAction::Idle, HitOutcome::Missed);
        },
    };
    match slot.item {
        Item::Weapon(w, state) => {
            let mut ws: WeaponState = state;
            let ai: usize = w.ammo_type.index();
            let mut pool: i32 = player.ammo_reserve[ai];
            let action: WeaponAction = operate_weapon(
                &w,
                &mut ws,
                &mut pool,
                dt,
                reload_pressed,
                fire_down,
            );
            player.ammo_reserve[ai] = pool;
            player.slots[si] = Some(
                SlotItem { item: Item::Weapon(w, ws), count: slot.count, cd: slot.cd, using: slot.using },
            );
            assert(player.slots =~= with_weapon_state(*old(player), ws, pool).slots);
            assert(player.ammo_reserve =~= with_weapon_state(*old(player), ws, pool).ammo_reserve);
            let outcome: HitOutcome = match action {
                WeaponAction::Fired => {
                    let (hit, target) = resolve_hitscan(enemies, zbuffer, drawn, w.effective_damage());
                    hit
                },
                _ => HitOutcome::Missed,
            };
            (action, outcome)
        },
        Item::Consumable(_) => (WeaponAction::Idle, HitOutcome::Missed),
    }
}

} // verus!
