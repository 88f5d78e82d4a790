//! The player's slots: consumables that take time to use, stacks, and the
//! weapon in hand with its magazine.

use vstd::prelude::*;
use vstd::array::spec_array_update;
use crate::consts::{
    CD_HEALTH_BIG, CD_HEALTH_SMALL, CD_SHIELD_BIG, CD_SHIELD_SMALL, MAX_STACK_HEALTH_BIG,
    MAX_STACK_HEALTH_SMALL, MAX_STACK_SHIELD_BIG, MAX_STACK_SHIELD_SMALL, PLAYER_MAX_HP,
    PLAYER_MAX_SHIELD, SMALL_HEALTH_CAP, SMALL_SHIELD_CAP,
};
use crate::fixed::{tick_down, ticked_down};
use crate::types::{ConsumableType, Enemy, Item, Player, SlotItem, WeaponState};

verus! {

/// Hit points or shield that a consumable gives.
pub open spec fn spec_gain(c: ConsumableType) -> int {
    match c {
        ConsumableType::HealthSmall => 20,
        ConsumableType::HealthBig => 100,
        ConsumableType::ShieldSmall => 25,
        ConsumableType::ShieldBig => 50,
    }
}

/// Level up to which a consumable fills.
pub open spec fn spec_cap(c: ConsumableType) -> int {
    match c {
        ConsumableType::HealthSmall => SMALL_HEALTH_CAP as int,
        ConsumableType::HealthBig => PLAYER_MAX_HP as int,
        ConsumableType::ShieldSmall => SMALL_SHIELD_CAP as int,
        ConsumableType::ShieldBig => PLAYER_MAX_SHIELD as int,
    }
}

/// Largest stack of a consumable, and the time that its use takes.
pub open spec fn spec_max_stack_and_cd(c: ConsumableType) -> (i32, i32) {
    match c {
        ConsumableType::HealthSmall => (MAX_STACK_HEALTH_SMALL, CD_HEALTH_SMALL),
        ConsumableType::HealthBig => (MAX_STACK_HEALTH_BIG, CD_HEALTH_BIG),
        ConsumableType::ShieldSmall => (MAX_STACK_SHIELD_SMALL, CD_SHIELD_SMALL),
        ConsumableType::ShieldBig => (MAX_STACK_SHIELD_BIG, CD_SHIELD_BIG),
    }
}

/// Largest stack of a consumable, and the time that its use takes.
pub fn max_stack_and_cd(c: ConsumableType) -> (r: (i32, i32))
    ensures
        r == spec_max_stack_and_cd(c),
{
    match c {
        ConsumableType::HealthSmall => (MAX_STACK_HEALTH_SMALL, CD_HEALTH_SMALL),
        ConsumableType::HealthBig => (MAX_STACK_HEALTH_BIG, CD_HEALTH_BIG),
        ConsumableType::ShieldSmall => (MAX_STACK_SHIELD_SMALL, CD_SHIELD_SMALL),
        ConsumableType::ShieldBig => (MAX_STACK_SHIELD_BIG, CD_SHIELD_BIG),
    }
}

/// Whether the use of a slot's item can begin: the slot holds at least one
/// consumable that is not in use, and a small one would still help.
pub open spec fn can_start_use(player: Player, slot: SlotItem) -> bool {
    !slot.using && slot.count > 0 && match slot.item {
        Item::Consumable(ConsumableType::HealthSmall) => player.hp < SMALL_HEALTH_CAP,
        Item::Consumable(ConsumableType::ShieldSmall) => player.shield < SMALL_SHIELD_CAP,
        Item::Consumable(_) => true,
        Item::Weapon(_, _) => false,
    }
}

/// The time that the use of a slot's item takes.
pub open spec fn use_time(slot: SlotItem) -> i32 {
    match slot.item {
        Item::Consumable(c) => spec_max_stack_and_cd(c).1,
        Item::Weapon(_, _) => slot.cd,
    }
}

/// Begins to use the consumable in a slot, if that can begin: the slot is
/// then in use for the time that the consumable takes. Returns whether the
/// use began.
pub fn start_use_consumable(player: &Player, slot: &mut SlotItem) -> (started: bool)
    ensures
        started == can_start_use(*player, *old(slot)),
        started ==> *final(slot) == (SlotItem { using: true, cd: use_time(*old(slot)), ..*old(slot) }),
        !started ==> *final(slot) == *old(slot),
{
    if slot.using || slot.count <= 0 {
        return false;
    }
    match slot.item {
        Item::Consumable(ConsumableType::HealthSmall) => {
            if player.hp >= SMALL_HEALTH_CAP {
                return false;
            }
            slot.using = true;
            slot.cd = CD_HEALTH_SMALL;
            true
        },
        Item::Consumable(ConsumableType::HealthBig) => {
            slot.using = true;
            slot.cd = CD_HEALTH_BIG;
            true
        },
        Item::Consumable(ConsumableType::ShieldSmall) => {
            if player.shield >= SMALL_SHIELD_CAP {
                return false;
            }
            slot.using = true;
            slot.cd = CD_SHIELD_SMALL;
            true
        },
        Item::Consumable(ConsumableType::ShieldBig) => {
            slot.using = true;
            slot.cd = CD_SHIELD_BIG;
            true
        },
        Item::Weapon(_, _) => false,
    }
}

/// A level raised by `gain`, but not above `cap`.
pub open spec fn topped_up(level: int, gain: int, cap: int) -> int {
    if level + gain > cap {
        cap
    } else {
        level + gain
    }
}

/// The player after a use has ended.
pub open spec fn player_after_use(player: Player, slot: SlotItem) -> Player {
    if !slot.using || slot.count <= 0 {
        player
    } else {
        match slot.item {
            Item::Consumable(c) => match c {
                ConsumableType::HealthSmall | ConsumableType::HealthBig => Player {
                    hp: topped_up(player.hp as int, spec_gain(c), spec_cap(c)) as i32,
                    ..player
                },
                ConsumableType::ShieldSmall | ConsumableType::ShieldBig => Player {
                    shield: topped_up(player.shield as int, spec_gain(c), spec_cap(c)) as i32,
                    ..player
                },
            },
            Item::Weapon(_, _) => player,
        }
    }
}

/// The slot after a use has ended: one consumable less, and no longer in use.
pub open spec fn slot_after_use(slot: SlotItem) -> SlotItem {
    if !slot.using || slot.count <= 0 {
        slot
    } else {
        SlotItem {
            count: if slot.item is Consumable {
                (slot.count - 1) as i32
            } else {
                slot.count
            },
            using: false,
            cd: 0,
            ..slot
        }
    }
}

fn top_up(level: i32, gain: i32, cap: i32) -> (r: i32)
    requires
        0 <= gain <= 100,
        0 <= cap <= 100,
    ensures
        r == topped_up(level as int, gain as int, cap as int),
{
    let raised: i64 = level as i64 + gain as i64;
    if raised > cap as i64 {
        cap
    } else {
        raised as i32
    }
}

/// Ends the use of the consumable in a slot: its effect comes to the
/// player, one of the stack is spent, and the slot is free for the next
/// use. A slot that is not in use, or is empty, is left alone.
pub fn finish_use_consumable(player: &mut Player, slot: &mut SlotItem)
    ensures
        *final(player) == player_after_use(*old(player), *old(slot)),
        *final(slot) == slot_after_use(*old(slot)),
{
    if !slot.using || slot.count <= 0 {
        return ;
    }
    match slot.item {
        Item::Consumable(ConsumableType::HealthSmall) => {
            player.hp = top_up(player.hp, 20, SMALL_HEALTH_CAP);
            slot.count = slot.count - 1;
        },
        Item::Consumable(ConsumableType::HealthBig) => {
            player.hp = top_up(player.hp, 100, PLAYER_MAX_HP);
            slot.count = slot.count - 1;
        },
        Item::Consumable(ConsumableType::ShieldSmall) => {
            player.shield = top_up(player.shield, 25, SMALL_SHIELD_CAP);
            slot.count = slot.count - 1;
        },
        Item::Consumable(ConsumableType::ShieldBig) => {
            player.shield = top_up(player.shield, 50, PLAYER_MAX_SHIELD);
            slot.count = slot.count - 1;
        },
        Item::Weapon(_, _) => {},
    }
    slot.using = false;
    slot.cd = 0;
}

/// Whether a slot keeps its item: a weapon always, a consumable while one
/// is left or in use.
pub open spec fn keeps_item(slot: SlotItem) -> bool {
    match slot.item {
        Item::Consumable(_) => slot.count > 0 || slot.using,
        Item::Weapon(_, _) => true,
    }
}

/// A slot after the time `dt`: a use in progress comes nearer its end.
pub open spec fn slot_ticked(slot: SlotItem, dt: int) -> SlotItem {
    if slot.using {
        SlotItem { cd: ticked_down(slot.cd as int, dt) as i32, ..slot }
    } else {
        slot
    }
}

/// Whether the use in a slot ends within the time `dt`.
pub open spec fn use_ends(slot: SlotItem, dt: int) -> bool {
    slot.using && ticked_down(slot.cd as int, dt) <= 0
}

/// The player and slots after the first `n` slots have seen the time `dt`
/// pass: uses that reach their end take effect, and consumable slots that
/// are used up are emptied.
pub open spec fn slots_ticked(player: Player, dt: int, n: nat) -> Player
    decreases n,
{
    if n == 0 {
        player
    } else {
        let before = slots_ticked(player, dt, (n - 1) as nat);
        match before.slots[n - 1] {
            Some(slot) => {
                let t = slot_ticked(slot, dt);
                let p = if use_ends(slot, dt) {
                    player_after_use(before, t)
                } else {
                    before
                };
                let s = if use_ends(slot, dt) {
                    slot_after_use(t)
                } else {
                    t
                };
                Player {
                    slots: spec_array_update(
                        before.slots,
                        n - 1,
                        if keeps_item(s) {
                            Some(s)
                        } else {
                            None
                        },
                    ),
                    ..p
                }
            },
            None => before,
        }
    }
}

/// Lets the time `dt` pass for every slot.
pub fn tick_slots(player: &mut Player, dt: i32)
    ensures
        *final(player) == slots_ticked(*old(player), dt as int, 5),
{
    let mut i: usize = 0;
    while i < 5
        invariant
            i <= 5,
            *player == slots_ticked(*old(player), dt as int, i as nat),
        decreases 5 - i,
    {
        match player.slots[i] {
            Some(s) => {
                let mut slot: SlotItem = s;
                if slot.using {
                    slot.cd = tick_down(slot.cd, dt);
                    if slot.cd <= 0 {
                        finish_use_consumable(player, &mut slot);
                    }
                }
                let keep: bool = match slot.item {
                    Item::Consumable(_) => slot.count > 0 || slot.using,
                    Item::Weapon(_, _) => true,
                };
                player.slots[i] = if keep { Some(slot) } else { None };
            },
            None => {},
        }
        i = i + 1;
    }
}

/// An item put away: a consumable's use is broken off, a weapon's reload
/// is lost.
pub open spec fn put_away(slot: SlotItem) -> SlotItem {
    match slot.item {
        Item::Consumable(_) => SlotItem { using: false, cd: 0, ..slot },
        Item::Weapon(w, ws) => if ws.reloading {
            SlotItem {
                item: Item::Weapon(w, WeaponState { reloading: false, reload_cd: 0, ..ws }),
                ..slot
            }
        } else {
            slot
        },
    }
}

/// The player after choosing the slot `choice`, or the bare hand for
/// `None`: if the choice changes, the item held before is put away.
pub open spec fn after_select(player: Player, choice: Option<usize>) -> Player {
    if choice == player.selected {
        player
    } else {
        match player.selected {
            Some(si) => if si < 5 && player.slots[si as int] is Some {
                Player {
                    selected: choice,
                    slots: spec_array_update(
                        player.slots,
                        si as int,
                        Some(put_away(player.slots[si as int]->0)),
                    ),
                    ..player
                }
            } else {
                Player { selected: choice, ..player }
            },
            None => Player { selected: choice, ..player },
        }
    }
}

/// Chooses a slot, or the bare hand.
pub fn select_slot(player: &mut Player, choice: Option<usize>)
    ensures
        *final(player) == after_select(*old(player), choice),
{
    let prev: Option<usize> = player.selected;
    let same: bool = match (prev, choice) {
        (Some(a), Some(b)) => a == b,
        (None, None) => true,
        _ => false,
    };
    if same {
        return ;
    }
    player.selected = choice;
    match prev {
        Some(si) => {
            if si < 5 {
                match player.slots[si] {
                    Some(s) => {
                        let mut slot: SlotItem = s;
                        match slot.item {
                            Item::Consumable(_) => {
                                slot.using = false;
                                slot.cd = 0;
                            },
                            Item::Weapon(w, ws) => {
                                if ws.reloading {
                                    slot.item = Item::Weapon(
                                        w,
                                        WeaponState {
                                            ammo_in_mag: ws.ammo_in_mag,
                                            weapon_cd: ws.weapon_cd,
                                            reloading: false,
                                            reload_cd: 0,
                                        },
                                    );
                                }
                            },
                        }
                        player.slots[si] = Some(slot);
                    },
                    None => {},
                }
            }
        },
        None => {},
    }
}

/// Number of the first `n` enemies that are alive.
pub open spec fn alive_among(enemies: Seq<Enemy>, n: nat) -> nat
    decreases n,
{
    if n == 0 {
        0
    } else {
        alive_among(enemies, (n - 1) as nat) + if enemies[n - 1].spec_is_alive() {
            1nat
        } else {
            0nat
        }
    }
}

/// Counts the enemies that are alive.
pub fn enemies_left(enemies: &[Enemy]) -> (n: usize)
    ensures
        n == alive_among(enemies@, enemies@.len()),
{
    let mut n: usize = 0;
    let mut i: usize = 0;
    while i < enemies.len()
        invariant
            i <= enemies@.len(),
            n == alive_among(enemies@, i as nat),
            n <= i,
        decreases enemies@.len() - i,
    {
        if enemies[i].is_alive() {
            n = n + 1;
        }
        i = i + 1;
    }
    n
}

} // verus!
