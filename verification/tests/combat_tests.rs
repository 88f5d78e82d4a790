use raycaster::combat::{apply_damage, damage_enemy, hitscan_target, resolve_hitscan, HitOutcome};
use raycaster::types::{
    AmmoType, Color, DrawnSprite, Enemy, EnemyState, Player, Rarity, Weapon, WeaponType,
};

fn player(hp: i32, shield: i32) -> Player {
    Player {
        x: 0,
        y: 0,
        angle: 0,
        hp,
        shield,
        ammo_reserve: [0; 5],
        slots: [None, None, None, None, None],
        selected: None,
        punch_cd: 0,
    }
}

fn pistol() -> Weapon {
    Weapon {
        wtype: WeaponType::Pistol,
        name: "Pistola",
        damage: 25,
        fire_interval: 22938,
        mag_size: 12,
        reload_time: 78643,
        ammo_type: AmmoType::Light,
        rarity: Rarity::Common,
    }
}

fn enemy(hp: i32) -> Enemy {
    Enemy {
        x: 0,
        y: 0,
        hp,
        speed: 65536,
        state: EnemyState::Idle,
        color: Color::Orange,
        weapon: pistol(),
        weapon_cd: 0,
        flash_timer: 0,
        death_anim_t: 0,
    }
}

#[test]
fn damage_goes_to_the_shield_first() {
    let mut p = player(50, 30);
    let (took, died) = apply_damage(&mut p, 50);
    assert_eq!(p.shield, 0);
    assert_eq!(p.hp, 30);
    assert!(took);
    assert!(!died);
}

#[test]
fn damage_beyond_shield_and_hp_kills() {
    let mut p = player(50, 30);
    let (took, died) = apply_damage(&mut p, 80);
    assert_eq!(p.shield, 0);
    assert_eq!(p.hp, 0);
    assert!(took);
    assert!(died);
}

#[test]
fn hitscan_picks_the_nearest_of_two() {
    let far = (5.0 * 65536.0) as i64;
    let near = (3.2 * 65536.0) as i64;
    let wall = (10.0 * 65536.0) as i64;
    let drawn = vec![
        DrawnSprite { start_x: 600, end_x: 700, depth: far, idx: 0 },
        DrawnSprite { start_x: 620, end_x: 660, depth: near, idx: 1 },
    ];
    let zbuffer = vec![wall; 1280];
    assert_eq!(hitscan_target(&drawn, &zbuffer, 640), Some(1));
    let mut enemies = vec![enemy(100), enemy(100)];
    let (outcome, target) = resolve_hitscan(&mut enemies, &zbuffer, &drawn, 25);
    assert_eq!(outcome, HitOutcome::Hurt);
    assert_eq!(target, Some(1));
    assert_eq!(enemies[0].hp, 100);
    assert_eq!(enemies[1].hp, 75);
}

#[test]
fn a_dead_enemy_takes_no_more_damage() {
    let mut e = enemy(10);
    assert_eq!(damage_enemy(&mut e, 25), HitOutcome::Killed);
    assert!(e.state == EnemyState::Dead);
    let hp = e.hp;
    assert_eq!(damage_enemy(&mut e, 25), HitOutcome::Missed);
    assert!(e.state == EnemyState::Dead);
    assert_eq!(e.hp, hp);
}
