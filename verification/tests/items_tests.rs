use raycaster::combat::{melee_target, resolve_melee, HitOutcome};
use raycaster::consts::{CD_HEALTH_BIG, CD_HEALTH_SMALL, CD_SHIELD_BIG, PUNCH_COOLDOWN};
use raycaster::fixed::{cell_of, cell_of_wide, div_toward_zero, isqrt, tick_down};
use raycaster::inventory::{
    enemies_left, finish_use_consumable, max_stack_and_cd, select_slot, start_use_consumable,
    tick_slots,
};
use raycaster::loot::{
    add_ammo, ammo_for_roll, dropped_at, find_weapon, health_for_roll, is_collectable,
    item_of_pickup, loot_color, loot_pickup, loot_table, make_decoration, make_dropped_from_slot,
    open_chest, make_chest, pickups_at, random_ammo_spawn, random_health_spawn, random_shield_spawn,
    random_weapon_spawn, rarity_for_roll, roll_rarity, roll_weapon_type, shield_for_roll,
    spawn_color, spawn_enemies, try_stack_or_replace_slot, weapon_for_roll, weapon_type_of,
    weapon_types, weapons_catalog,
};
use raycaster::types::{
    AmmoType, Chest, Color, ConsumableType, DecoKind, Decoration, DrawnSprite, Enemy, EnemyState,
    Item, Pickup, PickupKind, Player, Rarity, SlotItem, Weapon, WeaponState, WeaponType,
};
use raycaster::weapons::{fire_control, operate_weapon, WeaponAction};

const ONE: i32 = 65536;

fn hero() -> Player {
    Player {
        x: 5 * ONE,
        y: 5 * ONE,
        angle: 0,
        hp: 100,
        shield: 0,
        ammo_reserve: [60, 40, 20, 12, 4],
        slots: [None, None, None, None, None],
        selected: None,
        punch_cd: 0,
    }
}

fn pistol(rarity: Rarity) -> Weapon {
    Weapon {
        wtype: WeaponType::Pistol,
        name: "Pistola",
        damage: 25,
        fire_interval: 22938,
        mag_size: 12,
        reload_time: 78643,
        ammo_type: AmmoType::Light,
        rarity,
    }
}

fn loaded(rounds: i32) -> WeaponState {
    WeaponState { ammo_in_mag: rounds, weapon_cd: 0, reloading: false, reload_cd: 0 }
}

fn stack(c: ConsumableType, count: i32) -> SlotItem {
    SlotItem { item: Item::Consumable(c), count, cd: 0, using: false }
}

fn armed(w: Weapon, ws: WeaponState) -> SlotItem {
    SlotItem { item: Item::Weapon(w, ws), count: 1, cd: 0, using: false }
}

fn foe(hp: i32) -> Enemy {
    Enemy {
        x: 0,
        y: 0,
        hp,
        speed: ONE,
        state: EnemyState::Chase,
        color: Color::Orange,
        weapon: pistol(Rarity::Common),
        weapon_cd: 0,
        flash_timer: 0,
        death_anim_t: 0,
    }
}

fn is_consumable(item: &Item, c: ConsumableType) -> bool {
    match item {
        Item::Consumable(x) => *x == c,
        Item::Weapon(_, _) => false,
    }
}

fn state_of(slot: &Option<SlotItem>) -> WeaponState {
    match slot.unwrap().item {
        Item::Weapon(_, ws) => ws,
        Item::Consumable(_) => panic!("a weapon was expected"),
    }
}

#[test]
fn fixed_point_helpers_round_as_they_say() {
    assert_eq!(cell_of(0), 0);
    assert_eq!(cell_of(65535), 0);
    assert_eq!(cell_of(65536), 1);
    assert_eq!(cell_of(-1), -1);
    assert_eq!(cell_of(-65536), -1);
    assert_eq!(cell_of(-65537), -2);
    assert_eq!(cell_of(i32::MIN), -32768);
    assert_eq!(cell_of(i32::MAX), 32767);
    assert_eq!(cell_of_wide(-65537), -2);
    assert_eq!(cell_of_wide(1 << 40), 1 << 24);
    assert_eq!(div_toward_zero(-7, 2), -3);
    assert_eq!(div_toward_zero(7, 2), 3);
    assert_eq!(div_toward_zero(i64::MIN, 1), i64::MIN);
    assert_eq!(tick_down(10, 3), 7);
    assert_eq!(tick_down(10, 30), 0);
    assert_eq!(tick_down(i32::MAX, -5), i32::MAX);
    assert_eq!(isqrt(0), 0);
    assert_eq!(isqrt(15), 3);
    assert_eq!(isqrt(16), 4);
    assert_eq!(isqrt(u128::MAX), u64::MAX);
}

#[test]
fn rarity_scales_damage_and_reload() {
    let damage: Vec<i32> = [Rarity::Common, Rarity::Uncommon, Rarity::Rare, Rarity::Epic, Rarity::Legendary]
        .iter()
        .map(|r| pistol(*r).effective_damage())
        .collect();
    // 25, 27.5, 30.5, 34, 38: halves round away from zero
    assert_eq!(damage, vec![25, 28, 31, 34, 38]);
    assert_eq!(pistol(Rarity::Legendary).effective_reload(), 78643 * 70 / 100);
    assert_eq!(pistol(Rarity::Common).effective_reload(), 78643);
    let mut odd = pistol(Rarity::Uncommon);
    odd.damage = -25;
    assert_eq!(odd.effective_damage(), -28);
    odd.damage = i32::MAX;
    assert_eq!(odd.effective_damage(), i32::MAX);
    assert_eq!(Rarity::Rare.damage_mult(), 122);
    assert_eq!(Rarity::Rare.reload_mult(), 88);
    assert!(Rarity::Rare.color() == Color::Blue);
    assert_eq!(Rarity::Epic.name(), "Épica");
    assert_eq!(AmmoType::Shell.name(), "Cartuchos");
    assert_eq!(AmmoType::Rocket.index(), 4);
    assert_eq!(WeaponType::Shotgun.name(), "Escopeta");
    assert_eq!(ConsumableType::ShieldBig.name(), "Escudo mayor");
}

#[test]
fn alive_means_not_dead_and_with_hit_points() {
    let mut e = foe(1);
    assert!(e.is_alive());
    e.hp = 0;
    assert!(!e.is_alive());
    e.hp = 10;
    e.state = EnemyState::Dead;
    assert!(!e.is_alive());
    assert_eq!(enemies_left(&[foe(1), foe(0), e, foe(5)]), 2);
    assert_eq!(enemies_left(&[]), 0);
    let d = Decoration { x: 0, y: 0, radius: 1, color: Color::Brown, kind: DecoKind::Passable };
    assert!(!d.is_blocking());
    assert!(make_decoration(1, 2, DecoKind::Blocking).is_blocking());
    assert_eq!(make_decoration(1, 2, DecoKind::Passable).radius, 18350);
    assert!(make_chest(3, 4).is_blocking());
    assert!(!make_chest(3, 4).opened);
}

#[test]
fn the_fist_reaches_through_walls_but_not_far() {
    let enemies = vec![foe(100), foe(100), foe(0)];
    let drawn = vec![
        DrawnSprite { start_x: 600, end_x: 700, depth: 91751, idx: 0 },
        DrawnSprite { start_x: 600, end_x: 700, depth: 91750, idx: 1 },
        DrawnSprite { start_x: 600, end_x: 700, depth: 100, idx: 2 },
        DrawnSprite { start_x: 0, end_x: 639, depth: 50, idx: 0 },
        DrawnSprite { start_x: 600, end_x: 700, depth: 60, idx: 9 },
    ];
    // too far, in reach, dead, beside the centre, unknown: the second it is
    assert_eq!(melee_target(&drawn, &enemies, 640), Some(1));
    let mut enemies = enemies;
    let mut p = hero();
    let (outcome, target) = resolve_melee(&mut enemies, &mut p, &drawn);
    assert_eq!((outcome, target), (HitOutcome::Hurt, Some(1)));
    assert_eq!(enemies[1].hp, 75);
    assert_eq!(enemies[1].flash_timer, 6554);
    assert_eq!(p.punch_cd, PUNCH_COOLDOWN);
    // the fist must rest
    let (outcome, target) = resolve_melee(&mut enemies, &mut p, &drawn);
    assert_eq!((outcome, target), (HitOutcome::Missed, None));
    assert_eq!(enemies[1].hp, 75);
    // a blow into the air costs no rest
    let mut q = hero();
    let (outcome, _) = resolve_melee(&mut enemies, &mut q, &[]);
    assert_eq!(outcome, HitOutcome::Missed);
    assert_eq!(q.punch_cd, 0);
}

#[test]
fn the_fourth_blow_kills_and_counts_once() {
    let mut enemies = vec![foe(100)];
    let drawn = vec![DrawnSprite { start_x: 600, end_x: 700, depth: 65536, idx: 0 }];
    let mut kills = 0;
    for _ in 0..6 {
        let mut p = hero();
        if resolve_melee(&mut enemies, &mut p, &drawn).0 == HitOutcome::Killed {
            kills += 1;
        }
    }
    assert_eq!(kills, 1);
    assert_eq!(enemies[0].hp, 0);
    assert!(enemies[0].state == EnemyState::Dead);
}

#[test]
fn consumables_take_their_time() {
    assert_eq!(max_stack_and_cd(ConsumableType::HealthSmall), (15, CD_HEALTH_SMALL));
    assert_eq!(max_stack_and_cd(ConsumableType::HealthBig), (3, CD_HEALTH_BIG));
    assert_eq!(max_stack_and_cd(ConsumableType::ShieldSmall), (6, 163840));
    assert_eq!(max_stack_and_cd(ConsumableType::ShieldBig), (3, CD_SHIELD_BIG));
    let mut p = hero();
    p.hp = 50;
    let mut slot = stack(ConsumableType::HealthSmall, 2);
    assert!(start_use_consumable(&p, &mut slot));
    assert!(slot.using);
    assert_eq!(slot.cd, CD_HEALTH_SMALL);
    // not twice at once
    assert!(!start_use_consumable(&p, &mut slot));
    finish_use_consumable(&mut p, &mut slot);
    assert_eq!(p.hp, 70);
    assert_eq!((slot.count, slot.using, slot.cd), (1, false, 0));
    assert!(start_use_consumable(&p, &mut slot));
    finish_use_consumable(&mut p, &mut slot);
    assert_eq!(p.hp, 75);
    assert_eq!(slot.count, 0);
    // nothing left, and at the cap a small one is refused
    assert!(!start_use_consumable(&p, &mut slot));
    let mut more = stack(ConsumableType::HealthSmall, 1);
    assert!(!start_use_consumable(&p, &mut more));
    let mut big = stack(ConsumableType::HealthBig, 1);
    assert!(start_use_consumable(&p, &mut big));
    finish_use_consumable(&mut p, &mut big);
    assert_eq!(p.hp, 100);
    let mut sh = stack(ConsumableType::ShieldSmall, 1);
    p.shield = 40;
    assert!(start_use_consumable(&p, &mut sh));
    finish_use_consumable(&mut p, &mut sh);
    assert_eq!(p.shield, 50);
    let mut big_shield = stack(ConsumableType::ShieldBig, 1);
    assert!(start_use_consumable(&p, &mut big_shield));
    assert_eq!(big_shield.cd, CD_SHIELD_BIG);
    finish_use_consumable(&mut p, &mut big_shield);
    assert_eq!(p.shield, 100);
    // a weapon is no consumable
    let mut gun = armed(pistol(Rarity::Common), loaded(3));
    assert!(!start_use_consumable(&p, &mut gun));
    // a slot not in use is left alone
    let mut idle = stack(ConsumableType::HealthBig, 2);
    finish_use_consumable(&mut p, &mut idle);
    assert_eq!(idle.count, 2);
}

#[test]
fn slots_count_down_and_empty_themselves() {
    let mut p = hero();
    p.hp = 10;
    p.slots[0] = Some(SlotItem { using: true, cd: 1000, ..stack(ConsumableType::HealthSmall, 1) });
    p.slots[1] = Some(SlotItem { using: true, cd: 3000, ..stack(ConsumableType::HealthBig, 2) });
    p.slots[2] = Some(armed(pistol(Rarity::Common), loaded(3)));
    p.slots[3] = Some(stack(ConsumableType::ShieldBig, 0));
    tick_slots(&mut p, 1000);
    // the first use ended: healed, spent, and the slot is empty
    assert_eq!(p.hp, 30);
    assert!(p.slots[0].is_none());
    assert_eq!(p.slots[1].unwrap().cd, 2000);
    assert!(p.slots[1].unwrap().using);
    assert!(p.slots[2].is_some());
    assert!(p.slots[3].is_none());
    tick_slots(&mut p, 5000);
    assert_eq!(p.hp, 100);
    assert_eq!((p.slots[1].unwrap().count, p.slots[1].unwrap().using), (1, false));
}

#[test]
fn changing_the_slot_puts_the_item_away() {
    let mut p = hero();
    p.slots[0] = Some(SlotItem { using: true, cd: 500, ..stack(ConsumableType::HealthBig, 1) });
    p.slots[1] = Some(armed(
        pistol(Rarity::Common),
        WeaponState { ammo_in_mag: 2, weapon_cd: 7, reloading: true, reload_cd: 900 },
    ));
    p.selected = Some(0);
    select_slot(&mut p, Some(0));
    assert!(p.slots[0].unwrap().using);
    select_slot(&mut p, Some(1));
    assert_eq!(p.selected, Some(1));
    assert_eq!((p.slots[0].unwrap().using, p.slots[0].unwrap().cd), (false, 0));
    select_slot(&mut p, None);
    assert_eq!(p.selected, None);
    let ws = state_of(&p.slots[1]);
    assert_eq!((ws.reloading, ws.reload_cd, ws.weapon_cd, ws.ammo_in_mag), (false, 0, 7, 2));
    select_slot(&mut p, Some(4));
    assert_eq!(p.selected, Some(4));
}

#[test]
fn a_weapon_fires_reloads_and_waits() {
    let w = pistol(Rarity::Rare);
    let mut ws = loaded(1);
    let mut pool = 5;
    assert_eq!(operate_weapon(&w, &mut ws, &mut pool, 1000, false, true), WeaponAction::Fired);
    assert_eq!((ws.ammo_in_mag, ws.weapon_cd), (0, 22938));
    // the cadence holds the next shot back
    assert_eq!(operate_weapon(&w, &mut ws, &mut pool, 1000, false, true), WeaponAction::Idle);
    assert_eq!(ws.weapon_cd, 21938);
    ws.weapon_cd = 0;
    // empty: the trigger starts a reload, at the speed of the rarity
    assert_eq!(operate_weapon(&w, &mut ws, &mut pool, 1000, false, true), WeaponAction::ReloadStarted);
    assert!(ws.reloading);
    assert_eq!(ws.reload_cd, 78643 * 88 / 100);
    assert_eq!(operate_weapon(&w, &mut ws, &mut pool, 60000, false, true), WeaponAction::Idle);
    assert_eq!(ws.reload_cd, 78643 * 88 / 100 - 60000);
    // the reload ends: the five rounds of the reserve go in, and the shot follows at once
    assert_eq!(operate_weapon(&w, &mut ws, &mut pool, 60000, false, true), WeaponAction::Fired);
    assert_eq!((ws.ammo_in_mag, pool, ws.reloading, ws.reload_cd), (4, 0, false, 0));
    // no reload without a reserve, none with a full magazine
    ws.weapon_cd = 0;
    assert_eq!(operate_weapon(&w, &mut ws, &mut pool, 1, true, false), WeaponAction::Idle);
    let mut full = loaded(12);
    let mut plenty = 30;
    assert_eq!(operate_weapon(&w, &mut full, &mut plenty, 1, true, false), WeaponAction::Idle);
    let mut half = loaded(6);
    assert_eq!(operate_weapon(&w, &mut half, &mut plenty, 1, true, true), WeaponAction::ReloadStarted);
    assert_eq!(operate_weapon(&w, &mut half, &mut plenty, 100000, false, false), WeaponAction::Idle);
    assert_eq!((half.ammo_in_mag, plenty), (12, 24));
}

#[test]
fn the_weapon_in_hand_shoots_the_enemy_in_the_middle() {
    let mut p = hero();
    p.slots[2] = Some(armed(pistol(Rarity::Legendary), loaded(2)));
    p.selected = Some(2);
    let mut enemies = vec![foe(100), foe(30)];
    let zbuffer = vec![10 * 65536i64; 1280];
    let drawn = vec![
        DrawnSprite { start_x: 0, end_x: 1279, depth: 5 * 65536, idx: 0 },
        DrawnSprite { start_x: 640, end_x: 640, depth: 3 * 65536, idx: 1 },
    ];
    let r = fire_control(&mut p, &mut enemies, &zbuffer, &drawn, 100, false, true);
    assert_eq!(r, (WeaponAction::Fired, HitOutcome::Killed));
    assert_eq!((enemies[0].hp, enemies[1].hp), (100, -8));
    assert!(enemies[1].state == EnemyState::Dead);
    assert_eq!(state_of(&p.slots[2]).ammo_in_mag, 1);
    // nothing in hand, or a consumable: nothing happens
    p.selected = None;
    assert_eq!(
        fire_control(&mut p, &mut enemies, &zbuffer, &drawn, 100, true, true),
        (WeaponAction::Idle, HitOutcome::Missed)
    );
    p.slots[0] = Some(stack(ConsumableType::HealthBig, 1));
    p.selected = Some(0);
    assert_eq!(
        fire_control(&mut p, &mut enemies, &zbuffer, &drawn, 100, true, true),
        (WeaponAction::Idle, HitOutcome::Missed)
    );
    // a reload takes from the reserve of the weapon's ammunition
    p.selected = Some(2);
    let r = fire_control(&mut p, &mut enemies, &zbuffer, &drawn, 100, true, false);
    assert_eq!(r.0, WeaponAction::ReloadStarted);
    let r = fire_control(&mut p, &mut enemies, &zbuffer, &drawn, 100000, false, false);
    assert_eq!(r.0, WeaponAction::Idle);
    assert_eq!(state_of(&p.slots[2]).ammo_in_mag, 12);
    assert_eq!(p.ammo_reserve, [49, 40, 20, 12, 4]);
}

#[test]
fn a_shot_stops_at_the_wall() {
    let mut p = hero();
    p.slots[0] = Some(armed(pistol(Rarity::Common), loaded(2)));
    p.selected = Some(0);
    let mut enemies = vec![foe(100)];
    let zbuffer = vec![2 * 65536i64; 1280];
    let drawn = vec![DrawnSprite { start_x: 0, end_x: 1279, depth: 2 * 65536, idx: 0 }];
    let r = fire_control(&mut p, &mut enemies, &zbuffer, &drawn, 100, false, true);
    assert_eq!(r, (WeaponAction::Fired, HitOutcome::Missed));
    assert_eq!(enemies[0].hp, 100);
}

#[test]
fn rolls_pick_by_their_thresholds() {
    let picks: Vec<Rarity> = [0, 44, 45, 69, 70, 87, 88, 96, 97, 99].iter().map(|t| rarity_for_roll(*t)).collect();
    assert!(picks
        == vec![
            Rarity::Common,
            Rarity::Common,
            Rarity::Uncommon,
            Rarity::Uncommon,
            Rarity::Rare,
            Rarity::Rare,
            Rarity::Epic,
            Rarity::Epic,
            Rarity::Legendary,
            Rarity::Legendary
        ]);
    assert!(health_for_roll(39).is_none());
    assert!(matches!(health_for_roll(40), Some(PickupKind::HealthSmall)));
    assert!(matches!(health_for_roll(79), Some(PickupKind::HealthSmall)));
    assert!(matches!(health_for_roll(80), Some(PickupKind::HealthBig)));
    assert!(shield_for_roll(0).is_none());
    assert!(matches!(shield_for_roll(41), Some(PickupKind::ShieldSmall)));
    assert!(matches!(shield_for_roll(99), Some(PickupKind::ShieldBig)));
    assert!(ammo_for_roll(34).is_none());
    assert!(matches!(ammo_for_roll(35), Some(PickupKind::Ammo { ammo: AmmoType::Light, amount: 30 })));
    assert!(matches!(ammo_for_roll(55), Some(PickupKind::Ammo { ammo: AmmoType::Medium, amount: 20 })));
    assert!(matches!(ammo_for_roll(73), Some(PickupKind::Ammo { ammo: AmmoType::Heavy, amount: 10 })));
    assert!(matches!(ammo_for_roll(85), Some(PickupKind::Ammo { ammo: AmmoType::Shell, amount: 8 })));
    assert!(matches!(ammo_for_roll(95), Some(PickupKind::Ammo { ammo: AmmoType::Rocket, amount: 2 })));
    assert!(weapon_for_roll(39, WeaponType::SMG, Rarity::Rare).is_none());
    assert!(matches!(
        weapon_for_roll(40, WeaponType::SMG, Rarity::Rare),
        Some(PickupKind::Weapon { wtype: WeaponType::SMG, rarity: Rarity::Rare })
    ));
}

#[test]
fn random_spawns_stay_within_what_the_rolls_allow() {
    let mut seen_weapon = false;
    let mut seen_nothing = false;
    for _ in 0..400 {
        let _ = roll_rarity();
        let _ = roll_weapon_type();
        if let Some(p) = random_health_spawn(7, 9) {
            assert_eq!((p.x, p.y, p.radius, p.spawn_lock), (7, 9, 22938, 0));
            match p.kind {
                PickupKind::HealthSmall => assert!(p.color == Color::Lime),
                PickupKind::HealthBig => assert!(p.color == Color::Gold),
                _ => panic!("health was expected"),
            }
        }
        if let Some(p) = random_shield_spawn(7, 9) {
            match p.kind {
                PickupKind::ShieldSmall => assert!(p.color == Color::SkyBlue),
                PickupKind::ShieldBig => assert!(p.color == Color::Blue),
                _ => panic!("a shield was expected"),
            }
        }
        if let Some(p) = random_ammo_spawn(7, 9) {
            assert!(matches!(p.kind, PickupKind::Ammo { .. }));
            assert!(p.color == spawn_color(&p.kind));
        }
        match random_weapon_spawn(7, 9) {
            Some(p) => {
                seen_weapon = true;
                match p.kind {
                    PickupKind::Weapon { rarity, .. } => assert!(p.color == rarity.color()),
                    _ => panic!("a weapon was expected"),
                }
            }
            None => seen_nothing = true,
        }
    }
    // both happen four times in ten and six times in ten
    assert!(seen_weapon && seen_nothing);
}

#[test]
fn a_weapon_type_is_drawn_from_all_five() {
    let all = weapon_types();
    assert!(
        all == [
            WeaponType::Pistol,
            WeaponType::SMG,
            WeaponType::Rifle,
            WeaponType::Shotgun,
            WeaponType::RocketLauncher
        ]
    );
    assert!(weapon_type_of(Some(WeaponType::Shotgun)) == WeaponType::Shotgun);
    assert!(weapon_type_of(Some(WeaponType::Pistol)) == WeaponType::Pistol);
    assert!(weapon_type_of(None) == WeaponType::Pistol);
    let mut seen = std::collections::BTreeSet::new();
    for _ in 0..2000 {
        let w = roll_weapon_type();
        seen.insert(all.iter().position(|t| *t == w).unwrap());
    }
    // every type comes up
    assert_eq!(seen.len(), 5);
}

#[test]
fn rolled_rarities_are_not_always_the_same() {
    let first = roll_rarity();
    let mut differs = false;
    for _ in 0..2000 {
        if roll_rarity() != first {
            differs = true;
        }
    }
    assert!(differs);
}

#[test]
fn what_a_slot_drops_lands_near_the_player() {
    let slot = stack(ConsumableType::ShieldSmall, 40);
    let drops = make_dropped_from_slot(1000000, -2000000, &slot);
    assert_eq!(drops.len(), 40);
    let mut offsets = std::collections::BTreeSet::new();
    for p in drops.iter() {
        assert!(matches!(p.kind, PickupKind::ShieldSmall));
        assert!(p.color == Color::SkyBlue);
        assert_eq!((p.radius, p.spawn_lock), (22938, 22938));
        assert!(1000000 - 16384 <= p.x && p.x < 1000000 + 16384);
        assert!(-2000000 - 16384 <= p.y && p.y < -2000000 + 16384);
        offsets.insert((p.x, p.y));
    }
    // they do not all land on one spot
    assert!(offsets.len() > 1);
    let gun = armed(pistol(Rarity::Epic), loaded(3));
    let one = make_dropped_from_slot(0, 0, &gun);
    assert_eq!(one.len(), 1);
    assert!(matches!(one[0].kind, PickupKind::Weapon { wtype: WeaponType::Pistol, rarity: Rarity::Epic }));
    assert!(one[0].color == Color::Purple);
    assert!(make_dropped_from_slot(0, 0, &stack(ConsumableType::HealthBig, -3)).is_empty());
    let exact = dropped_at(i32::MAX, 5, &gun, 16383, -16384);
    assert_eq!((exact.x, exact.y), (i32::MAX, 5 - 16384));
}

#[test]
fn an_item_is_stacked_taken_or_swapped() {
    let mut p = hero();
    // no slot chosen: nothing happens
    let r = try_stack_or_replace_slot(&mut p, stack(ConsumableType::HealthBig, 1), None);
    assert!(!r.consumed && r.drops.is_empty());
    let r = try_stack_or_replace_slot(&mut p, stack(ConsumableType::HealthBig, 1), Some(7));
    assert!(!r.consumed && r.drops.is_empty());
    // an empty slot takes it
    let r = try_stack_or_replace_slot(&mut p, stack(ConsumableType::HealthBig, 2), Some(1));
    assert!(r.consumed && r.drops.is_empty());
    assert_eq!(p.slots[1].unwrap().count, 2);
    // the same consumable stacks up to three, and the longer time is kept
    let more = SlotItem { cd: 99, ..stack(ConsumableType::HealthBig, 5) };
    let r = try_stack_or_replace_slot(&mut p, more, Some(1));
    assert!(r.consumed && r.drops.is_empty());
    assert_eq!((p.slots[1].unwrap().count, p.slots[1].unwrap().cd), (3, 99));
    // a full stack refuses
    let r = try_stack_or_replace_slot(&mut p, stack(ConsumableType::HealthBig, 1), Some(1));
    assert!(!r.consumed && r.drops.is_empty());
    assert_eq!(p.slots[1].unwrap().count, 3);
    // another item takes the place, and the three are dropped
    let gun = armed(
        pistol(Rarity::Common),
        WeaponState { ammo_in_mag: 4, weapon_cd: 5, reloading: true, reload_cd: 600 },
    );
    let r = try_stack_or_replace_slot(&mut p, gun, Some(1));
    assert!(r.consumed);
    assert_eq!(r.drops.len(), 3);
    assert!(r.drops.iter().all(|d| matches!(d.kind, PickupKind::HealthBig)));
    assert!(r.drops.iter().all(|d| (d.x - p.x).abs() <= 16384 && (d.y - p.y).abs() <= 16384));
    let ws = state_of(&p.slots[1]);
    assert_eq!((ws.reloading, ws.reload_cd, ws.ammo_in_mag, ws.weapon_cd), (false, 0, 4, 5));
    // and a consumable in its turn replaces the weapon, not in use
    let used = SlotItem { using: true, cd: 44, ..stack(ConsumableType::ShieldBig, 1) };
    let r = try_stack_or_replace_slot(&mut p, used, Some(1));
    assert!(r.consumed);
    assert_eq!(r.drops.len(), 1);
    assert!(is_consumable(&p.slots[1].unwrap().item, ConsumableType::ShieldBig));
    assert_eq!((p.slots[1].unwrap().using, p.slots[1].unwrap().cd), (false, 0));
}

#[test]
fn enemies_spawn_armed_from_the_catalog() {
    let catalog = weapons_catalog();
    assert_eq!(catalog.len(), 5);
    assert_eq!(catalog[0].name, "Pistola");
    assert_eq!(catalog[4].damage, 120);
    assert!(catalog.iter().all(|w| w.rarity == Rarity::Common));
    let points = vec![(1, 2), (3, 4), (5, 6)];
    let enemies = spawn_enemies(&points, &catalog);
    assert_eq!(enemies.len(), 3);
    for (e, p) in enemies.iter().zip(points.iter()) {
        assert_eq!((e.x, e.y), *p);
        assert!(100 <= e.hp && e.hp <= 200);
        assert!(e.state == EnemyState::Idle);
        assert!(e.color == Color::Orange);
        assert_eq!((e.speed, e.weapon_cd, e.flash_timer, e.death_anim_t), (65536, 0, 0, 0));
        assert!(catalog.iter().any(|w| w.name == e.weapon.name && w.damage == e.weapon.damage));
    }
    assert!(spawn_enemies(&points, &[]).is_empty());
    let many = spawn_enemies(&vec![(0, 0); 300], &catalog);
    assert!(many.iter().any(|e| e.hp != many[0].hp));
    assert!(many.iter().any(|e| e.weapon.wtype != many[0].weapon.wtype));
}

#[test]
fn pickups_offer_their_items() {
    let catalog = weapons_catalog();
    assert!(find_weapon(&catalog, WeaponType::Rifle).unwrap().damage == 35);
    assert!(find_weapon(&catalog[..2], WeaponType::Rifle).is_none());
    let item = item_of_pickup(&PickupKind::HealthSmall, &catalog).unwrap();
    assert!(is_consumable(&item.item, ConsumableType::HealthSmall));
    assert_eq!((item.count, item.cd, item.using), (1, 0, false));
    assert!(item_of_pickup(&PickupKind::Ammo { ammo: AmmoType::Light, amount: 30 }, &catalog).is_none());
    let gun = item_of_pickup(&PickupKind::Weapon { wtype: WeaponType::Shotgun, rarity: Rarity::Epic }, &catalog).unwrap();
    match gun.item {
        Item::Weapon(w, ws) => {
            assert_eq!(w.name, "Escopeta");
            assert!(w.rarity == Rarity::Epic);
            assert_eq!((ws.ammo_in_mag, ws.reloading), (6, false));
        }
        Item::Consumable(_) => panic!("a weapon was expected"),
    }
    assert!(item_of_pickup(&PickupKind::Weapon { wtype: WeaponType::Shotgun, rarity: Rarity::Epic }, &[]).is_none());
    let exact = PickupKind::Item { item: Item::Consumable(ConsumableType::ShieldBig), count: -2 };
    assert_eq!(item_of_pickup(&exact, &catalog).unwrap().count, 1);

    let laid = pickups_at(&[(1, 2), (3, 4)], PickupKind::HealthBig, Color::Gold);
    assert_eq!(laid.len(), 2);
    assert_eq!((laid[1].x, laid[1].y, laid[1].radius, laid[1].spawn_lock), (3, 4, 22938, 0));

    let p = hero();
    let mut pk = Pickup { x: p.x + 39322, y: p.y, kind: PickupKind::HealthBig, radius: 22938, color: Color::Gold, spawn_lock: 0 };
    assert!(is_collectable(&p, &pk));
    pk.x += 1;
    assert!(!is_collectable(&p, &pk));
    pk.x = p.x;
    pk.spawn_lock = 1;
    assert!(!is_collectable(&p, &pk));

    let mut rich = hero();
    add_ammo(&mut rich, AmmoType::Heavy, 10);
    assert_eq!(rich.ammo_reserve, [60, 40, 30, 12, 4]);
    add_ammo(&mut rich, AmmoType::Light, i32::MAX);
    assert_eq!(rich.ammo_reserve[0], i32::MAX);
}

fn place_in_table(kind: &PickupKind) -> usize {
    match kind {
        PickupKind::HealthSmall => 0,
        PickupKind::HealthBig => 1,
        PickupKind::ShieldSmall => 2,
        PickupKind::ShieldBig => 3,
        PickupKind::Ammo { ammo, .. } => 4 + ammo.index(),
        PickupKind::Weapon { wtype, .. } => match wtype {
            WeaponType::Pistol => 9,
            WeaponType::SMG => 10,
            WeaponType::Rifle => 11,
            WeaponType::Shotgun => 12,
            WeaponType::RocketLauncher => 13,
        },
        PickupKind::Item { .. } => 14,
    }
}

#[test]
fn a_chest_opens_once_and_throws_loot() {
    let table = loot_table();
    assert_eq!(table.len(), 14);
    assert!(loot_color(&table[4]) == Color::White);
    assert!(spawn_color(&table[4]) == Color::LightGray);
    assert!(loot_color(&table[13]) == Color::Gold);
    let exact = loot_pickup(100, 200, PickupKind::HealthBig, -5, 19660);
    assert_eq!((exact.x, exact.y, exact.spawn_lock), (95, 19860, 22938));

    let p = hero();
    let mut far = Chest { x: p.x + 39323, ..make_chest(p.x, p.y) };
    assert!(open_chest(&p, &mut far).is_empty());
    assert!(!far.opened);
    let mut sizes = std::collections::BTreeSet::new();
    for _ in 0..200 {
        let mut chest = make_chest(p.x + 100, p.y - 100);
        let loot = open_chest(&p, &mut chest);
        assert!(chest.opened);
        assert!(loot.len() == 1 || loot.len() == 2);
        sizes.insert(loot.len());
        if loot.len() == 2 {
            assert_ne!(place_in_table(&loot[0].kind), place_in_table(&loot[1].kind));
        }
        for l in loot.iter() {
            assert!(place_in_table(&l.kind) < 14);
            assert!((l.x - chest.x).abs() <= 19661 && (l.y - chest.y).abs() <= 19661);
            assert!(l.color == loot_color(&l.kind));
            assert_eq!((l.radius, l.spawn_lock), (22938, 22938));
        }
        // an opened chest gives nothing more
        assert!(open_chest(&p, &mut chest).is_empty());
    }
    assert_eq!(sizes.len(), 2);
}
