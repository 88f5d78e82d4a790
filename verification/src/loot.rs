//! What lies on the floor: random spawns, what a slot drops, and how a
//! pickup enters the player's slots.

use vstd::prelude::*;
use vstd::array::spec_array_update;
use rand::seq::SliceRandom;
use rand::Rng;
use crate::consts::{
    AMMO_HEAVY_PACK, AMMO_LIGHT_PACK, AMMO_MEDIUM_PACK, AMMO_ROCKET_PACK, AMMO_SHELL_PACK,
    P_AMMO_HEAVY, P_AMMO_LIGHT, P_AMMO_MED, P_AMMO_NONE, P_AMMO_SHELL, P_HEALTH_NONE,
    P_HEALTH_SMALL, P_RARITY_COMMON, P_RARITY_EPIC, P_RARITY_RARE, P_RARITY_UNCOMMON,
    P_SHIELD_NONE, P_SHIELD_SMALL, P_WEAPON_NONE,
};
use crate::fixed::{clamp_to_i32, fit32, mul_wide};
use crate::inventory::{max_stack_and_cd, spec_max_stack_and_cd};
use crate::types::{
    AmmoType, Chest, Color, ConsumableType, DecoKind, Decoration, Enemy, EnemyState, Item, Pickup,
    PickupKind, Player, Rarity, SlotItem, Weapon, WeaponState, WeaponType,
};

verus! {

/// Radius of a pickup: 0.35 cells.
pub const PICKUP_RADIUS: i32 = 22938;

/// Time for which a dropped pickup cannot be collected: 0.35 s.
pub const DROP_LOCK: i32 = 22938;

/// How far from the player a dropped pickup may land along each axis:
/// up to a quarter of a cell.
pub const DROP_SPREAD: i32 = 16384;

/// Result of offering an item to a slot.
pub struct SlotApplyResult {
    /// Whether the item went into the slot
    pub consumed: bool,
    /// What the slot dropped to make room
    pub drops: Vec<Pickup>,
}

/// A number drawn at random from `lo` up to, but not including, `hi`.
/// Calls `gen_range` of `rand::Rng` on the thread's generator, which
/// panics on an empty range and returns a value of the range otherwise.
#[verifier::external_body]
fn random_in(lo: i32, hi: i32) -> (r: i32)
    requires
        lo < hi,
    ensures
        lo <= r < hi,
{
    rand::thread_rng().gen_range(lo..hi)
}

/// One item of a slice drawn at random. Calls `choose` of
/// `rand::seq::SliceRandom`, which returns nothing for an empty slice and
/// an item of the slice otherwise.
#[verifier::external_body]
fn choose_from<T: Copy>(items: &[T]) -> (r: Option<T>)
    ensures
        items@.len() == 0 ==> r is None,
        items@.len() > 0 ==> r is Some && items@.contains(r->0),
{
    items.choose(&mut rand::thread_rng()).copied()
}

/// Up to `amount` items of a slice drawn at random, no place of the slice
/// twice. Calls `choose_multiple` of `rand::seq::SliceRandom`, which
/// yields the items at `min(amount, len)` different places in random order.
#[verifier::external_body]
fn choose_several<T: Copy>(items: &[T], amount: usize) -> (r: Vec<T>)
    ensures
        r@.len() == if amount < items@.len() {
            amount as nat
        } else {
            items@.len()
        },
        exists|places: Seq<int>|
            #![trigger places.no_duplicates()]
            places.len() == r@.len() && places.no_duplicates() && forall|i: int|
                0 <= i < r@.len() ==> 0 <= #[trigger] places[i] < items@.len() && r@[i]
                    == items@[places[i]],
{
    items.choose_multiple(&mut rand::thread_rng(), amount).copied().collect()
}

/// Rarity for a roll between 0 and 99: common below 45, then uncommon,
/// rare and epic, and legendary from 97 on.
pub open spec fn spec_rarity_for_roll(t: u32) -> Rarity {
    if t < P_RARITY_COMMON {
        Rarity::Common
    } else if t < P_RARITY_COMMON + P_RARITY_UNCOMMON {
        Rarity::Uncommon
    } else if t < P_RARITY_COMMON + P_RARITY_UNCOMMON + P_RARITY_RARE {
        Rarity::Rare
    } else if t < P_RARITY_COMMON + P_RARITY_UNCOMMON + P_RARITY_RARE + P_RARITY_EPIC {
        Rarity::Epic
    } else {
        Rarity::Legendary
    }
}

/// Rarity for a roll between 0 and 99.
pub fn rarity_for_roll(t: u32) -> (r: Rarity)
    ensures
        r == spec_rarity_for_roll(t),
{
    let c: u32 = P_RARITY_COMMON;
    let uc: u32 = c + P_RARITY_UNCOMMON;
    let rr: u32 = uc + P_RARITY_RARE;
    let ep: u32 = rr + P_RARITY_EPIC;
    if t < c {
        Rarity::Common
    } else if t < uc {
        Rarity::Uncommon
    } else if t < rr {
        Rarity::Rare
    } else if t < ep {
        Rarity::Epic
    } else {
        Rarity::Legendary
    }
}

/// Draws a rarity: the rarity of some roll between 0 and 99.
pub fn roll_rarity() -> (r: Rarity)
    ensures
        exists|t: u32| t < 100 && r == #[trigger] spec_rarity_for_roll(t),
{
    let t: i32 = random_in(0, 100);
    rarity_for_roll(t as u32)
}

/// Draws the type of a weapon.
pub fn roll_weapon_type() -> (w: WeaponType)
    ensures
        w == WeaponType::Pistol || w == WeaponType::SMG || w == WeaponType::Rifle || w
            == WeaponType::Shotgun || w == WeaponType::RocketLauncher,
{
    let all: [WeaponType; 5] = weapon_types();
    weapon_type_of(choose_from(all.as_slice()))
}

/// The types of weapon among which one is drawn.
pub open spec fn spec_weapon_types() -> Seq<WeaponType> {
    seq![
        WeaponType::Pistol,
        WeaponType::SMG,
        WeaponType::Rifle,
        WeaponType::Shotgun,
        WeaponType::RocketLauncher,
    ]
}

/// The type that a draw gives: the type drawn, or the pistol where
/// nothing was drawn.
pub open spec fn spec_weapon_type_of(choice: Option<WeaponType>) -> WeaponType {
    match choice {
        Some(w) => w,
        None => WeaponType::Pistol,
    }
}

/// The types of weapon among which one is drawn.
pub fn weapon_types() -> (all: [WeaponType; 5])
    ensures
        all@ == spec_weapon_types(),
{
    let all: [WeaponType; 5] = [
        WeaponType::Pistol,
        WeaponType::SMG,
        WeaponType::Rifle,
        WeaponType::Shotgun,
        WeaponType::RocketLauncher,
    ];
    assert(all@ =~= spec_weapon_types());
    all
}

/// The type that a draw gives.
pub fn weapon_type_of(choice: Option<WeaponType>) -> (w: WeaponType)
    ensures
        w == spec_weapon_type_of(choice),
{
    match choice {
        Some(w) => w,
        None => WeaponType::Pistol,
    }
}

/// What a random health spawn holds for a roll between 0 and 99.
pub open spec fn spec_health_for_roll(r: u32) -> Option<PickupKind> {
    if r < P_HEALTH_NONE {
        None
    } else if r < P_HEALTH_NONE + P_HEALTH_SMALL {
        Some(PickupKind::HealthSmall)
    } else {
        Some(PickupKind::HealthBig)
    }
}

/// What a random shield spawn holds for a roll between 0 and 99.
pub open spec fn spec_shield_for_roll(r: u32) -> Option<PickupKind> {
    if r < P_SHIELD_NONE {
        None
    } else if r < P_SHIELD_NONE + P_SHIELD_SMALL {
        Some(PickupKind::ShieldSmall)
    } else {
        Some(PickupKind::ShieldBig)
    }
}

/// What a random ammunition spawn holds for a roll between 0 and 99.
pub open spec fn spec_ammo_for_roll(r: u32) -> Option<PickupKind> {
    if r < P_AMMO_NONE {
        None
    } else if r < P_AMMO_NONE + P_AMMO_LIGHT {
        Some(PickupKind::Ammo { ammo: AmmoType::Light, amount: AMMO_LIGHT_PACK })
    } else if r < P_AMMO_NONE + P_AMMO_LIGHT + P_AMMO_MED {
        Some(PickupKind::Ammo { ammo: AmmoType::Medium, amount: AMMO_MEDIUM_PACK })
    } else if r < P_AMMO_NONE + P_AMMO_LIGHT + P_AMMO_MED + P_AMMO_HEAVY {
        Some(PickupKind::Ammo { ammo: AmmoType::Heavy, amount: AMMO_HEAVY_PACK })
    } else if r < P_AMMO_NONE + P_AMMO_LIGHT + P_AMMO_MED + P_AMMO_HEAVY + P_AMMO_SHELL {
        Some(PickupKind::Ammo { ammo: AmmoType::Shell, amount: AMMO_SHELL_PACK })
    } else {
        Some(PickupKind::Ammo { ammo: AmmoType::Rocket, amount: AMMO_ROCKET_PACK })
    }
}

/// Colour of a pickup that spawns at random or falls out of a slot.
pub open spec fn spec_spawn_color(kind: PickupKind) -> Color {
    match kind {
        PickupKind::HealthSmall => Color::Lime,
        PickupKind::HealthBig => Color::Gold,
        PickupKind::ShieldSmall => Color::SkyBlue,
        PickupKind::ShieldBig => Color::Blue,
        PickupKind::Ammo { ammo, .. } => match ammo {
            AmmoType::Light => Color::LightGray,
            AmmoType::Medium => Color::Gray,
            AmmoType::Heavy => Color::DarkGray,
            AmmoType::Shell => Color::Brown,
            AmmoType::Rocket => Color::Red,
        },
        PickupKind::Weapon { rarity, .. } => rarity.spec_color(),
        PickupKind::Item { item, .. } => match item {
            Item::Consumable(ConsumableType::HealthSmall) => Color::Lime,
            Item::Consumable(ConsumableType::HealthBig) => Color::Gold,
            Item::Consumable(ConsumableType::ShieldSmall) => Color::SkyBlue,
            Item::Consumable(ConsumableType::ShieldBig) => Color::Blue,
            Item::Weapon(w, _) => w.rarity.spec_color(),
        },
    }
}

/// What a random health spawn holds for a roll between 0 and 99.
pub fn health_for_roll(r: u32) -> (k: Option<PickupKind>)
    ensures
        k == spec_health_for_roll(r),
{
    if r < P_HEALTH_NONE {
        None
    } else if r < P_HEALTH_NONE + P_HEALTH_SMALL {
        Some(PickupKind::HealthSmall)
    } else {
        Some(PickupKind::HealthBig)
    }
}

/// What a random shield spawn holds for a roll between 0 and 99.
pub fn shield_for_roll(r: u32) -> (k: Option<PickupKind>)
    ensures
        k == spec_shield_for_roll(r),
{
    if r < P_SHIELD_NONE {
        None
    } else if r < P_SHIELD_NONE + P_SHIELD_SMALL {
        Some(PickupKind::ShieldSmall)
    } else {
        Some(PickupKind::ShieldBig)
    }
}

/// What a random ammunition spawn holds for a roll between 0 and 99.
pub fn ammo_for_roll(r: u32) -> (k: Option<PickupKind>)
    ensures
        k == spec_ammo_for_roll(r),
{
    let light: u32 = P_AMMO_NONE + P_AMMO_LIGHT;
    let medium: u32 = light + P_AMMO_MED;
    let heavy: u32 = medium + P_AMMO_HEAVY;
    let shell: u32 = heavy + P_AMMO_SHELL;
    if r < P_AMMO_NONE {
        None
    } else if r < light {
        Some(PickupKind::Ammo { ammo: AmmoType::Light, amount: AMMO_LIGHT_PACK })
    } else if r < medium {
        Some(PickupKind::Ammo { ammo: AmmoType::Medium, amount: AMMO_MEDIUM_PACK })
    } else if r < heavy {
        Some(PickupKind::Ammo { ammo: AmmoType::Heavy, amount: AMMO_HEAVY_PACK })
    } else if r < shell {
        Some(PickupKind::Ammo { ammo: AmmoType::Shell, amount: AMMO_SHELL_PACK })
    } else {
        Some(PickupKind::Ammo { ammo: AmmoType::Rocket, amount: AMMO_ROCKET_PACK })
    }
}

/// Colour of a pickup that spawns at random or falls out of a slot.
pub fn spawn_color(kind: &PickupKind) -> (c: Color)
    ensures
        c == spec_spawn_color(*kind),
{
    match kind {
        PickupKind::HealthSmall => Color::Lime,
        PickupKind::HealthBig => Color::Gold,
        PickupKind::ShieldSmall => Color::SkyBlue,
        PickupKind::ShieldBig => Color::Blue,
        PickupKind::Ammo { ammo, .. } => match ammo {
            AmmoType::Light => Color::LightGray,
            AmmoType::Medium => Color::Gray,
            AmmoType::Heavy => Color::DarkGray,
            AmmoType::Shell => Color::Brown,
            AmmoType::Rocket => Color::Red,
        },
        PickupKind::Weapon { rarity, .. } => rarity.color(),
        PickupKind::Item { item, .. } => match item {
            Item::Consumable(ConsumableType::HealthSmall) => Color::Lime,
            Item::Consumable(ConsumableType::HealthBig) => Color::Gold,
            Item::Consumable(ConsumableType::ShieldSmall) => Color::SkyBlue,
            Item::Consumable(ConsumableType::ShieldBig) => Color::Blue,
            Item::Weapon(w, _) => w.rarity.color(),
        },
    }
}

/// The kind of pickup that a slot's item becomes when it is dropped.
pub open spec fn drop_kind(slot: SlotItem) -> PickupKind {
    match slot.item {
        Item::Weapon(w, _) => PickupKind::Weapon { wtype: w.wtype, rarity: w.rarity },
        Item::Consumable(c) => match c {
            ConsumableType::HealthSmall => PickupKind::HealthSmall,
            ConsumableType::HealthBig => PickupKind::HealthBig,
            ConsumableType::ShieldSmall => PickupKind::ShieldSmall,
            ConsumableType::ShieldBig => PickupKind::ShieldBig,
        },
    }
}

/// Number of pickups that a slot drops: one for a weapon, one for each
/// consumable of a stack.
pub open spec fn drop_count(slot: SlotItem) -> nat {
    match slot.item {
        Item::Weapon(_, _) => 1,
        Item::Consumable(_) => if slot.count < 0 {
            0
        } else {
            slot.count as nat
        },
    }
}

/// The pickup that a slot drops at the offset `(ox, oy)` from `(px, py)`.
pub open spec fn drop_at(px: i32, py: i32, slot: SlotItem, ox: i32, oy: i32) -> Pickup {
    Pickup {
        x: fit32(px + ox),
        y: fit32(py + oy),
        kind: drop_kind(slot),
        radius: PICKUP_RADIUS,
        color: spec_spawn_color(drop_kind(slot)),
        spawn_lock: DROP_LOCK,
    }
}

/// Whether a pickup is one that the slot drops near `(px, py)`.
pub open spec fn is_drop_of(p: Pickup, px: i32, py: i32, slot: SlotItem) -> bool {
    exists|ox: i32, oy: i32|
        -DROP_SPREAD <= ox < DROP_SPREAD && -DROP_SPREAD <= oy < DROP_SPREAD && p == #[trigger] drop_at(
            px,
            py,
            slot,
            ox,
            oy,
        )
}

/// The pickup that a slot drops at the offset `(ox, oy)` from `(px, py)`.
pub fn dropped_at(px: i32, py: i32, slot: &SlotItem, ox: i32, oy: i32) -> (p: Pickup)
    ensures
        p == drop_at(px, py, *slot, ox, oy),
{
    let kind: PickupKind = match slot.item {
        Item::Weapon(w, _) => PickupKind::Weapon { wtype: w.wtype, rarity: w.rarity },
        Item::Consumable(c) => match c {
            ConsumableType::HealthSmall => PickupKind::HealthSmall,
            ConsumableType::HealthBig => PickupKind::HealthBig,
            ConsumableType::ShieldSmall => PickupKind::ShieldSmall,
            ConsumableType::ShieldBig => PickupKind::ShieldBig,
        },
    };
    let color: Color = spawn_color(&kind);
    Pickup {
        x: clamp_to_i32(px as i64 + ox as i64),
        y: clamp_to_i32(py as i64 + oy as i64),
        kind,
        radius: PICKUP_RADIUS,
        color,
        spawn_lock: DROP_LOCK,
    }
}

/// Drops what a slot holds around `(px, py)`: a weapon as one pickup, a
/// stack of consumables as one pickup each, every one at an offset drawn
/// at random within `DROP_SPREAD` along each axis.
pub fn make_dropped_from_slot(px: i32, py: i32, slot: &SlotItem) -> (out: Vec<Pickup>)
    ensures
        out@.len() == drop_count(*slot),
        forall|i: int| 0 <= i < out@.len() ==> is_drop_of(#[trigger] out@[i], px, py, *slot),
{
    let n: i32 = match slot.item {
        Item::Weapon(_, _) => 1,
        Item::Consumable(_) => if slot.count < 0 {
            0
        } else {
            slot.count
        },
    };
    let mut out: Vec<Pickup> = Vec::new();
    let mut i: i32 = 0;
    while i < n
        invariant
            0 <= i <= n,
            n == drop_count(*slot),
            out@.len() == i,
            forall|k: int| 0 <= k < out@.len() ==> is_drop_of(#[trigger] out@[k], px, py, *slot),
        decreases n - i,
    {
        let ox: i32 = random_in(-DROP_SPREAD, DROP_SPREAD);
        let oy: i32 = random_in(-DROP_SPREAD, DROP_SPREAD);
        let p: Pickup = dropped_at(px, py, slot, ox, oy);
        assert(is_drop_of(p, px, py, *slot));
        out.push(p);
        i = i + 1;
    }
    out
}

/// An item made ready to enter a slot in place of another: a consumable
/// is not in use, a weapon is not reloading.
pub open spec fn made_ready(item: SlotItem) -> SlotItem {
    match item.item {
        Item::Consumable(_) => SlotItem { using: false, cd: 0, ..item },
        Item::Weapon(w, ws) => SlotItem {
            item: Item::Weapon(w, WeaponState { reloading: false, reload_cd: 0, ..ws }),
            ..item
        },
    }
}

/// Whether both items are the same consumable.
pub open spec fn same_consumable(a: Item, b: Item) -> bool {
    match (a, b) {
        (Item::Consumable(x), Item::Consumable(y)) => x == y,
        _ => false,
    }
}

/// Room left on a stack.
pub open spec fn stack_room(slot: SlotItem) -> int {
    match slot.item {
        Item::Consumable(c) => if spec_max_stack_and_cd(c).0 - slot.count < 0 {
            0
        } else {
            spec_max_stack_and_cd(c).0 - slot.count
        },
        Item::Weapon(_, _) => 0,
    }
}

/// A stack with the consumables of `new_item` added, as far as there is
/// room; the longer of the two remaining times is kept.
pub open spec fn stacked(slot: SlotItem, new_item: SlotItem) -> SlotItem {
    SlotItem {
        cd: if slot.cd < new_item.cd {
            new_item.cd
        } else {
            slot.cd
        },
        count: fit32(
            slot.count + if new_item.count < stack_room(slot) {
                new_item.count as int
            } else {
                stack_room(slot)
            },
        ),
        ..slot
    }
}

/// What becomes of the chosen slot when `new_item` is offered to it:
/// an empty slot takes it; a stack of the same consumable grows if it has
/// room and refuses otherwise; any other item gives way to it.
pub open spec fn slot_after_offer(held: Option<SlotItem>, new_item: SlotItem) -> Option<SlotItem> {
    match held {
        None => Some(new_item),
        Some(slot) => if same_consumable(slot.item, new_item.item) {
            if stack_room(slot) > 0 {
                Some(stacked(slot, new_item))
            } else {
                Some(slot)
            }
        } else {
            Some(made_ready(new_item))
        },
    }
}

/// Whether the chosen slot takes the item offered.
pub open spec fn offer_taken(held: Option<SlotItem>, new_item: SlotItem) -> bool {
    match held {
        None => true,
        Some(slot) => !same_consumable(slot.item, new_item.item) || stack_room(slot) > 0,
    }
}

/// Whether the item held gives way to the item offered, and is dropped.
pub open spec fn offer_displaces(held: Option<SlotItem>, new_item: SlotItem) -> bool {
    match held {
        None => false,
        Some(slot) => !same_consumable(slot.item, new_item.item),
    }
}

/// Offers an item to the chosen slot. With no slot chosen nothing
/// happens. An empty slot takes the item. A stack of the same consumable
/// grows as far as it has room, and refuses the item when it has none. Any
/// other item is dropped at the player's feet and the new one takes its
/// place.
pub fn try_stack_or_replace_slot(
    player: &mut Player,
    new_item: SlotItem,
    selected_slot: Option<usize>,
) -> (res: SlotApplyResult)
    ensures
        (selected_slot is None || selected_slot->0 >= 5) ==> {
            &&& *final(player) == *old(player)
            &&& !res.consumed
            &&& res.drops@.len() == 0
        },
        (selected_slot is Some && selected_slot->0 < 5) ==> ({
            let si = selected_slot->0 as int;
            let held = old(player).slots[si];
            &&& *final(player) == (Player {
                slots: spec_array_update(old(player).slots, si, slot_after_offer(held, new_item)),
                ..*old(player)
            })
            &&& res.consumed == offer_taken(held, new_item)
            &&& offer_displaces(held, new_item) ==> {
                &&& res.drops@.len() == drop_count(held->0)
                &&& forall|i: int|
                    0 <= i < res.drops@.len() ==> is_drop_of(
                        #[trigger] res.drops@[i],
                        old(player).x,
                        old(player).y,
                        held->0,
                    )
            }
            &&& !offer_displaces(held, new_item) ==> res.drops@.len() == 0
        }),
{
    let si: usize = match selected_slot {
        Some(si) => si,
        None => {
            return SlotApplyResult { consumed: false, drops: Vec::new() };
        },
    };
    if si >= 5 {
        return SlotApplyResult { consumed: false, drops: Vec::new() };
    }
    let held: SlotItem = match player.slots[si] {
        Some(s) => s,
        None => {
            player.slots[si] = Some(new_item);
            assert(player.slots =~= spec_array_update(old(player).slots, si as int, Some(new_item)));
            return SlotApplyResult { consumed: true, drops: Vec::new() };
        },
    };
    match (held.item, new_item.item) {
        (Item::Consumable(a), Item::Consumable(b)) => {
            if a == b {
                let (max_stack, _) = max_stack_and_cd(b);
                let free: i64 = max_stack as i64 - held.count as i64;
                let room: i64 = if free < 0 { 0 } else { free };
                if room > 0 {
                    let add: i64 = if (new_item.count as i64) < room {
                        new_item.count as i64
                    } else {
                        room
                    };
                    let grown: SlotItem = SlotItem {
                        item: held.item,
                        count: clamp_to_i32(held.count as i64 + add),
                        cd: if held.cd < new_item.cd { new_item.cd } else { held.cd },
                        using: held.using,
                    };
                    player.slots[si] = Some(grown);
                    assert(player.slots =~= spec_array_update(
                        old(player).slots,
                        si as int,
                        Some(stacked(held, new_item)),
                    ));
                    return SlotApplyResult { consumed: true, drops: Vec::new() };
                } else {
                    assert(player.slots =~= spec_array_update(
                        old(player).slots,
                        si as int,
                        Some(held),
                    ));
                    return SlotApplyResult { consumed: false, drops: Vec::new() };
                }
            }
        },
        _ => {},
    }
    let drops: Vec<Pickup> = make_dropped_from_slot(player.x, player.y, &held);
    let ready: SlotItem = match new_item.item {
        Item::Consumable(_) => SlotItem {
            item: new_item.item,
            count: new_item.count,
            cd: 0,
            using: false,
        },
        Item::Weapon(w, ws) => SlotItem {
            item: Item::Weapon(
                w,
                WeaponState {
                    ammo_in_mag: ws.ammo_in_mag,
                    weapon_cd: ws.weapon_cd,
                    reloading: false,
                    reload_cd: 0,
                },
            ),
            count: new_item.count,
            cd: new_item.cd,
            using: new_item.using,
        },
    };
    player.slots[si] = Some(ready);
    assert(player.slots =~= spec_array_update(
        old(player).slots,
        si as int,
        Some(made_ready(new_item)),
    ));
    SlotApplyResult { consumed: true, drops }
}

/// How far from a chest its loot may land along each axis: 0.3 cells.
pub const LOOT_SPREAD: i32 = 19661;

/// How near the player must be to collect a pickup or open a chest: 0.6 cells.
pub const REACH: i32 = 39322;

/// A pickup that lies ready at `(x, y)`.
pub open spec fn pickup_at(x: i32, y: i32, kind: PickupKind, color: Color) -> Pickup {
    Pickup { x, y, kind, radius: PICKUP_RADIUS, color, spawn_lock: 0 }
}

/// One pickup of the given kind and colour at each of the first `n` points.
pub open spec fn pickups_upto(points: Seq<(i32, i32)>, kind: PickupKind, color: Color, n: nat) -> Seq<
    Pickup,
>
    decreases n,
{
    if n == 0 {
        Seq::empty()
    } else {
        pickups_upto(points, kind, color, (n - 1) as nat).push(
            pickup_at(points[n - 1].0, points[n - 1].1, kind, color),
        )
    }
}

/// Lays one pickup of the given kind and colour at each point.
pub fn pickups_at(points: &[(i32, i32)], kind: PickupKind, color: Color) -> (out: Vec<Pickup>)
    ensures
        out@ == pickups_upto(points@, kind, color, points@.len()),
{
    let mut out: Vec<Pickup> = Vec::new();
    let mut i: usize = 0;
    while i < points.len()
        invariant
            i <= points@.len(),
            out@ == pickups_upto(points@, kind, color, i as nat),
        decreases points@.len() - i,
    {
        let (x, y) = points[i];
        out.push(Pickup { x, y, kind, radius: PICKUP_RADIUS, color, spawn_lock: 0 });
        i = i + 1;
    }
    out
}

/// What lies at a random spawn of health, shield or ammunition, given
/// what the roll chose.
pub open spec fn spawn_of(x: i32, y: i32, kind: Option<PickupKind>) -> Option<Pickup> {
    match kind {
        Some(k) => Some(pickup_at(x, y, k, spec_spawn_color(k))),
        None => None,
    }
}

fn spawn_with(x: i32, y: i32, kind: Option<PickupKind>) -> (p: Option<Pickup>)
    ensures
        p == spawn_of(x, y, kind),
{
    match kind {
        Some(k) => {
            let color: Color = spawn_color(&k);
            Some(Pickup { x, y, kind: k, radius: PICKUP_RADIUS, color, spawn_lock: 0 })
        },
        None => None,
    }
}

/// Rolls what a random health spawn at `(x, y)` holds.
pub fn random_health_spawn(x: i32, y: i32) -> (p: Option<Pickup>)
    ensures
        exists|r: u32| r < 100 && p == spawn_of(x, y, #[trigger] spec_health_for_roll(r)),
{
    let r: i32 = random_in(0, 100);
    spawn_with(x, y, health_for_roll(r as u32))
}

/// Rolls what a random shield spawn at `(x, y)` holds.
pub fn random_shield_spawn(x: i32, y: i32) -> (p: Option<Pickup>)
    ensures
        exists|r: u32| r < 100 && p == spawn_of(x, y, #[trigger] spec_shield_for_roll(r)),
{
    let r: i32 = random_in(0, 100);
    spawn_with(x, y, shield_for_roll(r as u32))
}

/// Rolls what a random ammunition spawn at `(x, y)` holds.
pub fn random_ammo_spawn(x: i32, y: i32) -> (p: Option<Pickup>)
    ensures
        exists|r: u32| r < 100 && p == spawn_of(x, y, #[trigger] spec_ammo_for_roll(r)),
{
    let r: i32 = random_in(0, 100);
    spawn_with(x, y, ammo_for_roll(r as u32))
}

/// What a random weapon spawn holds for a roll between 0 and 99 and a
/// weapon drawn for it: nothing below `P_WEAPON_NONE`.
pub open spec fn spec_weapon_for_roll(r: u32, wtype: WeaponType, rarity: Rarity) -> Option<
    PickupKind,
> {
    if r < P_WEAPON_NONE {
        None
    } else {
        Some(PickupKind::Weapon { wtype, rarity })
    }
}

/// What a random weapon spawn holds for a roll between 0 and 99.
pub fn weapon_for_roll(r: u32, wtype: WeaponType, rarity: Rarity) -> (k: Option<PickupKind>)
    ensures
        k == spec_weapon_for_roll(r, wtype, rarity),
{
    if r < P_WEAPON_NONE {
        None
    } else {
        Some(PickupKind::Weapon { wtype, rarity })
    }
}

/// Rolls what a random weapon spawn at `(x, y)` holds: nothing, or a
/// weapon of a type and rarity drawn at random.
pub fn random_weapon_spawn(x: i32, y: i32) -> (p: Option<Pickup>)
    ensures
        exists|r: u32, wtype: WeaponType, t: u32|
            r < 100 && t < 100 && p == spawn_of(
                x,
                y,
                #[trigger] spec_weapon_for_roll(r, wtype, spec_rarity_for_roll(t)),
            ),
{
    let r: i32 = random_in(0, 100);
    if (r as u32) < P_WEAPON_NONE {
        assert(spawn_of(x, y, spec_weapon_for_roll(r as u32, WeaponType::Pistol, spec_rarity_for_roll(0)))
            is None);
        return None;
    }
    let wtype: WeaponType = roll_weapon_type();
    let t: i32 = random_in(0, 100);
    let rarity: Rarity = rarity_for_roll(t as u32);
    let p: Option<Pickup> = spawn_with(x, y, weapon_for_roll(r as u32, wtype, rarity));
    assert(p == spawn_of(x, y, spec_weapon_for_roll(r as u32, wtype, spec_rarity_for_roll(t as u32))));
    p
}

/// Hit points of a fresh enemy: at least this many.
pub const ENEMY_HP_MIN: i32 = 100;

/// Hit points of a fresh enemy: at most this many.
pub const ENEMY_HP_MAX: i32 = 200;

/// A fresh enemy at `(x, y)` with the given hit points and weapon.
pub open spec fn fresh_enemy(x: i32, y: i32, hp: i32, weapon: Weapon) -> Enemy {
    Enemy {
        x,
        y,
        hp,
        speed: 65536,
        state: EnemyState::Idle,
        color: Color::Orange,
        weapon,
        weapon_cd: 0,
        flash_timer: 0,
        death_anim_t: 0,
    }
}

/// Whether `e` is a fresh enemy at `(x, y)` with a weapon of the catalog
/// and hit points between `ENEMY_HP_MIN` and `ENEMY_HP_MAX`.
pub open spec fn is_spawn_of(e: Enemy, x: i32, y: i32, catalog: Seq<Weapon>) -> bool {
    exists|hp: i32, k: int|
        ENEMY_HP_MIN <= hp <= ENEMY_HP_MAX && 0 <= k < catalog.len() && e == #[trigger] fresh_enemy(
            x,
            y,
            hp,
            catalog[k],
        )
}

/// Puts a fresh enemy on each spawn point, with hit points and a weapon
/// of the catalog drawn at random. An empty catalog arms nobody: no
/// enemy is made.
pub fn spawn_enemies(points: &[(i32, i32)], catalog: &[Weapon]) -> (out: Vec<Enemy>)
    ensures
        catalog@.len() == 0 ==> out@.len() == 0,
        catalog@.len() > 0 ==> out@.len() == points@.len(),
        forall|i: int|
            0 <= i < out@.len() ==> is_spawn_of(
                #[trigger] out@[i],
                points@[i].0,
                points@[i].1,
                catalog@,
            ),
{
    let mut out: Vec<Enemy> = Vec::new();
    if catalog.len() == 0 {
        return out;
    }
    let mut i: usize = 0;
    while i < points.len()
        invariant
            i <= points@.len(),
            catalog@.len() > 0,
            out@.len() == i,
            forall|k: int|
                0 <= k < out@.len() ==> is_spawn_of(
                    #[trigger] out@[k],
                    points@[k].0,
                    points@[k].1,
                    catalog@,
                ),
        decreases points@.len() - i,
    {
        let (x, y) = points[i];
        let hp: i32 = random_in(ENEMY_HP_MIN, ENEMY_HP_MAX + 1);
        let weapon: Weapon = match choose_from(catalog) {
            Some(w) => w,
            None => catalog[0],
        };
        let e: Enemy = Enemy {
            x,
            y,
            hp,
            speed: 65536,
            state: EnemyState::Idle,
            color: Color::Orange,
            weapon,
            weapon_cd: 0,
            flash_timer: 0,
            death_anim_t: 0,
        };
        proof {
            let k = choose|k: int| 0 <= k < catalog@.len() && catalog@[k] == weapon;
            assert(e == fresh_enemy(x, y, hp, catalog@[k]));
        }
        out.push(e);
        i = i + 1;
    }
    out
}

/// The weapons of the game at common rarity.
pub open spec fn spec_weapons_catalog() -> Seq<Weapon> {
    seq![
        Weapon {
            wtype: WeaponType::Pistol,
            name: "Pistola",
            damage: 25,
            fire_interval: 22938,
            mag_size: 12,
            reload_time: 78643,
            ammo_type: AmmoType::Light,
            rarity: Rarity::Common,
        },
        Weapon {
            wtype: WeaponType::SMG,
            name: "SMG",
            damage: 12,
            fire_interval: 5243,
            mag_size: 30,
            reload_time: 104858,
            ammo_type: AmmoType::Light,
            rarity: Rarity::Common,
        },
        Weapon {
            wtype: WeaponType::Rifle,
            name: "Rifle",
            damage: 35,
            fire_interval: 32768,
            mag_size: 10,
            reload_time: 131072,
            ammo_type: AmmoType::Medium,
            rarity: Rarity::Common,
        },
        Weapon {
            wtype: WeaponType::Shotgun,
            name: "Escopeta",
            damage: 50,
            fire_interval: 52429,
            mag_size: 6,
            reload_time: 117965,
            ammo_type: AmmoType::Shell,
            rarity: Rarity::Common,
        },
        Weapon {
            wtype: WeaponType::RocketLauncher,
            name: "Lanzacohetes",
            damage: 120,
            fire_interval: 78643,
            mag_size: 1,
            reload_time: 150733,
            ammo_type: AmmoType::Rocket,
            rarity: Rarity::Common,
        },
    ]
}

/// The weapons of the game at common rarity.
pub fn weapons_catalog() -> (catalog: Vec<Weapon>)
    ensures
        catalog@ == spec_weapons_catalog(),
{
    let mut catalog: Vec<Weapon> = Vec::new();
    catalog.push(
        Weapon {
            wtype: WeaponType::Pistol,
            name: "Pistola",
            damage: 25,
            fire_interval: 22938,
            mag_size: 12,
            reload_time: 78643,
            ammo_type: AmmoType::Light,
            rarity: Rarity::Common,
        },
    );
    catalog.push(
        Weapon {
            wtype: WeaponType::SMG,
            name: "SMG",
            damage: 12,
            fire_interval: 5243,
            mag_size: 30,
            reload_time: 104858,
            ammo_type: AmmoType::Light,
            rarity: Rarity::Common,
        },
    );
    catalog.push(
        Weapon {
            wtype: WeaponType::Rifle,
            name: "Rifle",
            damage: 35,
            fire_interval: 32768,
            mag_size: 10,
            reload_time: 131072,
            ammo_type: AmmoType::Medium,
            rarity: Rarity::Common,
        },
    );
    catalog.push(
        Weapon {
            wtype: WeaponType::Shotgun,
            name: "Escopeta",
            damage: 50,
            fire_interval: 52429,
            mag_size: 6,
            reload_time: 117965,
            ammo_type: AmmoType::Shell,
            rarity: Rarity::Common,
        },
    );
    catalog.push(
        Weapon {
            wtype: WeaponType::RocketLauncher,
            name: "Lanzacohetes",
            damage: 120,
            fire_interval: 78643,
            mag_size: 1,
            reload_time: 150733,
            ammo_type: AmmoType::Rocket,
            rarity: Rarity::Common,
        },
    );
    assert(catalog@ =~= spec_weapons_catalog());
    catalog
}

/// The weapon of a type in the catalog: the first of that type.
pub open spec fn first_of_type(catalog: Seq<Weapon>, wtype: WeaponType, n: nat) -> Option<Weapon>
    decreases n,
{
    if n == 0 {
        None
    } else {
        match first_of_type(catalog, wtype, (n - 1) as nat) {
            Some(w) => Some(w),
            None => if catalog[n - 1].wtype == wtype {
                Some(catalog[n - 1])
            } else {
                None
            },
        }
    }
}

/// Looks a weapon type up in the catalog.
pub fn find_weapon(catalog: &[Weapon], wtype: WeaponType) -> (w: Option<Weapon>)
    ensures
        w == first_of_type(catalog@, wtype, catalog@.len()),
{
    let mut i: usize = 0;
    while i < catalog.len()
        invariant
            i <= catalog@.len(),
            first_of_type(catalog@, wtype, i as nat) is None,
        decreases catalog@.len() - i,
    {
        if catalog[i].wtype == wtype {
            proof {
                lemma_first_of_type_stays(catalog@, wtype, (i + 1) as nat, catalog@.len());
            }
            return Some(catalog[i]);
        }
        i = i + 1;
    }
    None
}

/// Once a weapon of the type is found, no later weapon takes its place.
pub proof fn lemma_first_of_type_stays(catalog: Seq<Weapon>, wtype: WeaponType, n: nat, m: nat)
    requires
        n <= m,
        first_of_type(catalog, wtype, n) is Some,
    ensures
        first_of_type(catalog, wtype, m) == first_of_type(catalog, wtype, n),
    decreases m,
{
    if n < m {
        lemma_first_of_type_stays(catalog, wtype, n, (m - 1) as nat);
    }
}

/// A weapon fresh from the floor: its magazine is full.
pub open spec fn fresh_weapon_slot(w: Weapon) -> SlotItem {
    SlotItem {
        item: Item::Weapon(
            w,
            WeaponState { ammo_in_mag: w.mag_size, weapon_cd: 0, reloading: false, reload_cd: 0 },
        ),
        count: 1,
        cd: 0,
        using: false,
    }
}

/// The item that a pickup offers to a slot, if it offers one: a
/// consumable, a weapon of the catalog in the pickup's rarity, or the
/// exact item that it holds.
pub open spec fn offered_item(kind: PickupKind, catalog: Seq<Weapon>) -> Option<SlotItem> {
    match kind {
        PickupKind::HealthSmall => Some(one_of(ConsumableType::HealthSmall)),
        PickupKind::HealthBig => Some(one_of(ConsumableType::HealthBig)),
        PickupKind::ShieldSmall => Some(one_of(ConsumableType::ShieldSmall)),
        PickupKind::ShieldBig => Some(one_of(ConsumableType::ShieldBig)),
        PickupKind::Ammo { .. } => None,
        PickupKind::Weapon { wtype, rarity } => match first_of_type(
            catalog,
            wtype,
            catalog.len(),
        ) {
            Some(base) => Some(fresh_weapon_slot(Weapon { rarity, ..base })),
            None => None,
        },
        PickupKind::Item { item, count } => Some(
            SlotItem {
                item,
                count: if count < 1 {
                    1
                } else {
                    count
                },
                cd: 0,
                using: false,
            },
        ),
    }
}

/// A single consumable.
pub open spec fn one_of(c: ConsumableType) -> SlotItem {
    SlotItem { item: Item::Consumable(c), count: 1, cd: 0, using: false }
}

/// The item that a pickup offers to a slot, if it offers one.
pub fn item_of_pickup(kind: &PickupKind, catalog: &[Weapon]) -> (item: Option<SlotItem>)
    ensures
        item == offered_item(*kind, catalog@),
{
    match kind {
        PickupKind::HealthSmall => Some(
            SlotItem {
                item: Item::Consumable(ConsumableType::HealthSmall),
                count: 1,
                cd: 0,
                using: false,
            },
        ),
        PickupKind::HealthBig => Some(
            SlotItem {
                item: Item::Consumable(ConsumableType::HealthBig),
                count: 1,
                cd: 0,
                using: false,
            },
        ),
        PickupKind::ShieldSmall => Some(
            SlotItem {
                item: Item::Consumable(ConsumableType::ShieldSmall),
                count: 1,
                cd: 0,
                using: false,
            },
        ),
        PickupKind::ShieldBig => Some(
            SlotItem {
                item: Item::Consumable(ConsumableType::ShieldBig),
                count: 1,
                cd: 0,
                using: false,
            },
        ),
        PickupKind::Ammo { .. } => None,
        PickupKind::Weapon { wtype, rarity } => match find_weapon(catalog, *wtype) {
            Some(base) => {
                let w: Weapon = Weapon {
                    wtype: base.wtype,
                    name: base.name,
                    damage: base.damage,
                    fire_interval: base.fire_interval,
                    mag_size: base.mag_size,
                    reload_time: base.reload_time,
                    ammo_type: base.ammo_type,
                    rarity: *rarity,
                };
                Some(
                    SlotItem {
                        item: Item::Weapon(
                            w,
                            WeaponState {
                                ammo_in_mag: w.mag_size,
                                weapon_cd: 0,
                                reloading: false,
                                reload_cd: 0,
                            },
                        ),
                        count: 1,
                        cd: 0,
                        using: false,
                    },
                )
            },
            None => None,
        },
        PickupKind::Item { item, count } => Some(
            SlotItem { item: *item, count: if *count < 1 { 1 } else { *count }, cd: 0, using: false },
        ),
    }
}

/// Whether the player can collect a pickup: it is no longer locked, and
/// no farther away than `REACH`.
pub open spec fn can_collect(player: Player, p: Pickup) -> bool {
    p.spawn_lock <= 0 && (p.x - player.x) * (p.x - player.x) + (p.y - player.y) * (p.y - player.y)
        <= REACH * REACH
}

/// Whether the player can collect a pickup.
pub fn is_collectable(player: &Player, p: &Pickup) -> (b: bool)
    ensures
        b == can_collect(*player, *p),
{
    if p.spawn_lock > 0 {
        return false;
    }
    let dx: i64 = p.x as i64 - player.x as i64;
    let dy: i64 = p.y as i64 - player.y as i64;
    assert(0 <= dx * dx <= 0x1_0000_0000 * 0x1_0000_0000) by (nonlinear_arith)
        requires
            -0x1_0000_0000 <= dx <= 0x1_0000_0000,
    ;
    assert(0 <= dy * dy <= 0x1_0000_0000 * 0x1_0000_0000) by (nonlinear_arith)
        requires
            -0x1_0000_0000 <= dy <= 0x1_0000_0000,
    ;
    let d2: i128 = dx as i128 * dx as i128 + dy as i128 * dy as i128;
    d2 <= mul_wide(REACH as i64, REACH as i64)
}

/// The reserve with `amount` rounds added, as far as it can count.
pub open spec fn reserve_after(reserve: i32, amount: i32) -> i32 {
    fit32(reserve + amount)
}

/// Collects ammunition into the player's reserve.
pub fn add_ammo(player: &mut Player, ammo: AmmoType, amount: i32)
    ensures
        *final(player) == (Player {
            ammo_reserve: spec_array_update(
                old(player).ammo_reserve,
                ammo.spec_index(),
                reserve_after(old(player).ammo_reserve[ammo.spec_index()], amount),
            ),
            ..*old(player)
        }),
{
    let i: usize = ammo.index();
    let sum: i32 = clamp_to_i32(player.ammo_reserve[i] as i64 + amount as i64);
    player.ammo_reserve[i] = sum;
    assert(player.ammo_reserve =~= spec_array_update(
        old(player).ammo_reserve,
        ammo.spec_index(),
        reserve_after(old(player).ammo_reserve[ammo.spec_index()], amount),
    ));
}

/// The kinds of loot that a chest may hold.
pub open spec fn spec_loot_table() -> Seq<PickupKind> {
    seq![
        PickupKind::HealthSmall,
        PickupKind::HealthBig,
        PickupKind::ShieldSmall,
        PickupKind::ShieldBig,
        PickupKind::Ammo { ammo: AmmoType::Light, amount: AMMO_LIGHT_PACK },
        PickupKind::Ammo { ammo: AmmoType::Medium, amount: AMMO_MEDIUM_PACK },
        PickupKind::Ammo { ammo: AmmoType::Heavy, amount: AMMO_HEAVY_PACK },
        PickupKind::Ammo { ammo: AmmoType::Shell, amount: AMMO_SHELL_PACK },
        PickupKind::Ammo { ammo: AmmoType::Rocket, amount: AMMO_ROCKET_PACK },
        PickupKind::Weapon { wtype: WeaponType::Pistol, rarity: Rarity::Uncommon },
        PickupKind::Weapon { wtype: WeaponType::SMG, rarity: Rarity::Rare },
        PickupKind::Weapon { wtype: WeaponType::Rifle, rarity: Rarity::Rare },
        PickupKind::Weapon { wtype: WeaponType::Shotgun, rarity: Rarity::Epic },
        PickupKind::Weapon { wtype: WeaponType::RocketLauncher, rarity: Rarity::Legendary },
    ]
}

/// Colour of a pickup that comes out of a chest: ammunition is a shade
/// lighter there than at a random spawn.
pub open spec fn spec_loot_color(kind: PickupKind) -> Color {
    match kind {
        PickupKind::Ammo { ammo, .. } => match ammo {
            AmmoType::Light => Color::White,
            AmmoType::Medium => Color::LightGray,
            AmmoType::Heavy => Color::DarkGray,
            AmmoType::Shell => Color::Brown,
            AmmoType::Rocket => Color::Red,
        },
        _ => spec_spawn_color(kind),
    }
}

/// Colour of a pickup that comes out of a chest.
pub fn loot_color(kind: &PickupKind) -> (c: Color)
    ensures
        c == spec_loot_color(*kind),
{
    match kind {
        PickupKind::Ammo { ammo, .. } => match ammo {
            AmmoType::Light => Color::White,
            AmmoType::Medium => Color::LightGray,
            AmmoType::Heavy => Color::DarkGray,
            AmmoType::Shell => Color::Brown,
            AmmoType::Rocket => Color::Red,
        },
        _ => spawn_color(kind),
    }
}

/// The pickup of the given kind that a chest at `(cx, cy)` throws to the
/// offset `(ox, oy)`.
pub open spec fn loot_at(cx: i32, cy: i32, kind: PickupKind, ox: i32, oy: i32) -> Pickup {
    Pickup {
        x: fit32(cx + ox),
        y: fit32(cy + oy),
        kind,
        radius: PICKUP_RADIUS,
        color: spec_loot_color(kind),
        spawn_lock: DROP_LOCK,
    }
}

/// Whether a pickup is loot of a chest at `(cx, cy)`: of a kind of the
/// loot table, and within `LOOT_SPREAD` of the chest along each axis.
pub open spec fn is_loot_of(p: Pickup, cx: i32, cy: i32) -> bool {
    exists|k: int, ox: i32, oy: i32|
        0 <= k < spec_loot_table().len() && -LOOT_SPREAD <= ox < LOOT_SPREAD && -LOOT_SPREAD <= oy
            < LOOT_SPREAD && p == #[trigger] loot_at(cx, cy, spec_loot_table()[k], ox, oy)
}

/// The pickup of the given kind that a chest at `(cx, cy)` throws to the
/// offset `(ox, oy)`.
pub fn loot_pickup(cx: i32, cy: i32, kind: PickupKind, ox: i32, oy: i32) -> (p: Pickup)
    ensures
        p == loot_at(cx, cy, kind, ox, oy),
{
    let color: Color = loot_color(&kind);
    Pickup {
        x: clamp_to_i32(cx as i64 + ox as i64),
        y: clamp_to_i32(cy as i64 + oy as i64),
        kind,
        radius: PICKUP_RADIUS,
        color,
        spawn_lock: DROP_LOCK,
    }
}

/// The kinds of loot that a chest may hold.
pub fn loot_table() -> (table: Vec<PickupKind>)
    ensures
        table@ == spec_loot_table(),
{
    let mut table: Vec<PickupKind> = Vec::new();
    table.push(PickupKind::HealthSmall);
    table.push(PickupKind::HealthBig);
    table.push(PickupKind::ShieldSmall);
    table.push(PickupKind::ShieldBig);
    table.push(PickupKind::Ammo { ammo: AmmoType::Light, amount: AMMO_LIGHT_PACK });
    table.push(PickupKind::Ammo { ammo: AmmoType::Medium, amount: AMMO_MEDIUM_PACK });
    table.push(PickupKind::Ammo { ammo: AmmoType::Heavy, amount: AMMO_HEAVY_PACK });
    table.push(PickupKind::Ammo { ammo: AmmoType::Shell, amount: AMMO_SHELL_PACK });
    table.push(PickupKind::Ammo { ammo: AmmoType::Rocket, amount: AMMO_ROCKET_PACK });
    table.push(PickupKind::Weapon { wtype: WeaponType::Pistol, rarity: Rarity::Uncommon });
    table.push(PickupKind::Weapon { wtype: WeaponType::SMG, rarity: Rarity::Rare });
    table.push(PickupKind::Weapon { wtype: WeaponType::Rifle, rarity: Rarity::Rare });
    table.push(PickupKind::Weapon { wtype: WeaponType::Shotgun, rarity: Rarity::Epic });
    table.push(
        PickupKind::Weapon { wtype: WeaponType::RocketLauncher, rarity: Rarity::Legendary },
    );
    assert(table@ =~= spec_loot_table());
    table
}

/// Whether the player can open a chest: it is closed, and no farther
/// away than `REACH`.
pub open spec fn can_open(player: Player, c: Chest) -> bool {
    !c.opened && (c.x - player.x) * (c.x - player.x) + (c.y - player.y) * (c.y - player.y) <= REACH
        * REACH
}

/// Opens a chest if the player can open it: the chest is then open and
/// throws out one or two pickups of different places of the loot table,
/// each near the chest. A chest that cannot be opened stays as it is and
/// gives nothing.
pub fn open_chest(player: &Player, chest: &mut Chest) -> (loot: Vec<Pickup>)
    ensures
        !can_open(*player, *old(chest)) ==> *final(chest) == *old(chest) && loot@.len() == 0,
        can_open(*player, *old(chest)) ==> {
            &&& *final(chest) == (Chest { opened: true, ..*old(chest) })
            &&& 1 <= loot@.len() <= 2
            &&& forall|i: int|
                0 <= i < loot@.len() ==> is_loot_of(#[trigger] loot@[i], old(chest).x, old(chest).y)
            &&& loot@.len() == 2 ==> loot@[0].kind != loot@[1].kind
        },
{
    let mut loot: Vec<Pickup> = Vec::new();
    if chest.opened {
        return loot;
    }
    let dx: i64 = chest.x as i64 - player.x as i64;
    let dy: i64 = chest.y as i64 - player.y as i64;
    assert(0 <= dx * dx <= 0x1_0000_0000 * 0x1_0000_0000) by (nonlinear_arith)
        requires
            -0x1_0000_0000 <= dx <= 0x1_0000_0000,
    ;
    assert(0 <= dy * dy <= 0x1_0000_0000 * 0x1_0000_0000) by (nonlinear_arith)
        requires
            -0x1_0000_0000 <= dy <= 0x1_0000_0000,
    ;
    let d2: i128 = dx as i128 * dx as i128 + dy as i128 * dy as i128;
    if d2 > mul_wide(REACH as i64, REACH as i64) {
        return loot;
    }
    chest.opened = true;
    let table: Vec<PickupKind> = loot_table();
    let amount: i32 = random_in(1, 3);
    let kinds: Vec<PickupKind> = choose_several(table.as_slice(), amount as usize);
    let ghost places = choose|places: Seq<int>|
        #![trigger places.no_duplicates()]
        places.len() == kinds@.len() && places.no_duplicates() && forall|i: int|
            0 <= i < kinds@.len() ==> 0 <= #[trigger] places[i] < table@.len() && kinds@[i]
                == table@[places[i]];
    assert(kinds@.len() == 2 ==> places[0] != places[1]);
    let mut i: usize = 0;
    while i < kinds.len()
        invariant
            i <= kinds@.len(),
            loot@.len() == i,
            table@ == spec_loot_table(),
            places.len() == kinds@.len(),
            forall|k: int|
                0 <= k < kinds@.len() ==> 0 <= #[trigger] places[k] < table@.len() && kinds@[k]
                    == table@[places[k]],
            forall|k: int| 0 <= k < loot@.len() ==> is_loot_of(#[trigger] loot@[k], chest.x, chest.y),
            forall|k: int| 0 <= k < loot@.len() ==> (#[trigger] loot@[k]).kind == kinds@[k],
        decreases kinds@.len() - i,
    {
        let ox: i32 = random_in(-LOOT_SPREAD, LOOT_SPREAD);
        let oy: i32 = random_in(-LOOT_SPREAD, LOOT_SPREAD);
        let p: Pickup = loot_pickup(chest.x, chest.y, kinds[i], ox, oy);
        proof {
            let k = places[i as int];
            assert(p == loot_at(chest.x, chest.y, spec_loot_table()[k], ox, oy));
        }
        loot.push(p);
        i = i + 1;
    }
    proof {
        if loot@.len() == 2 {
            lemma_loot_table_differs(places[0], places[1]);
        }
    }
    loot
}

/// No kind of loot stands twice in the loot table.
pub proof fn lemma_loot_table_differs(i: int, j: int)
    requires
        0 <= i < spec_loot_table().len(),
        0 <= j < spec_loot_table().len(),
        i != j,
    ensures
        spec_loot_table()[i] != spec_loot_table()[j],
{
}

/// The decorations of a level: a solid one at each of the first places, a
/// passable one at each of the others.
pub open spec fn decoration_at(x: i32, y: i32, kind: DecoKind) -> Decoration {
    match kind {
        DecoKind::Blocking => Decoration {
            x,
            y,
            radius: 22938,
            color: Color::DarkPurple,
            kind: DecoKind::Blocking,
        },
        DecoKind::Passable => Decoration {
            x,
            y,
            radius: 18350,
            color: Color::LightGray,
            kind: DecoKind::Passable,
        },
    }
}

/// A decoration of the given kind at `(x, y)`.
pub fn make_decoration(x: i32, y: i32, kind: DecoKind) -> (d: Decoration)
    ensures
        d == decoration_at(x, y, kind),
{
    match kind {
        DecoKind::Blocking => Decoration {
            x,
            y,
            radius: 22938,
            color: Color::DarkPurple,
            kind: DecoKind::Blocking,
        },
        DecoKind::Passable => Decoration {
            x,
            y,
            radius: 18350,
            color: Color::LightGray,
            kind: DecoKind::Passable,
        },
    }
}

/// A closed chest at `(x, y)`.
pub fn make_chest(x: i32, y: i32) -> (c: Chest)
    ensures
        c == (Chest {
            x,
            y,
            radius: 21627,
            opened: false,
            color_closed: Color::Brown,
            color_opened: Color::Gold,
        }),
{
    Chest { x, y, radius: 21627, opened: false, color_closed: Color::Brown, color_opened: Color::Gold }
}

} // verus!
