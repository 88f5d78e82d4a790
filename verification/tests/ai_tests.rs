use raycaster::ai::{
    move_enemy, sort_by_distance, step_enemy, update_enemies, AiCfg, Feedback,
};
use raycaster::grid::Grid;
use raycaster::level::Level;
use raycaster::types::{
    AmmoType, Color, DecoKind, Decoration, Enemy, EnemyState, Player, Rarity, Weapon, WeaponType,
};

const ONE: i32 = 65536;

fn q(cells: f64) -> i32 {
    (cells * 65536.0) as i32
}

fn hall(with_wall: bool) -> Grid {
    let text = if with_wall {
        "1111111\n1001001\n1111111"
    } else {
        "1111111\n1000001\n1111111"
    };
    Level::from_txt(text).unwrap().grid
}

fn yard() -> Grid {
    Level::from_txt("1111111\n1000001\n1000001\n1000001\n1000001\n1000001\n1111111").unwrap().grid
}

fn hero(x: i32, y: i32) -> Player {
    Player {
        x,
        y,
        angle: 0,
        hp: 100,
        shield: 0,
        ammo_reserve: [0; 5],
        slots: [None, None, None, None, None],
        selected: None,
        punch_cd: 0,
    }
}

fn rifle() -> Weapon {
    Weapon {
        wtype: WeaponType::Rifle,
        name: "Rifle",
        damage: 35,
        fire_interval: 32768,
        mag_size: 10,
        reload_time: 131072,
        ammo_type: AmmoType::Medium,
        rarity: Rarity::Common,
    }
}

fn guard(x: i32, y: i32) -> Enemy {
    Enemy {
        x,
        y,
        hp: 100,
        speed: ONE,
        state: EnemyState::Idle,
        color: Color::Orange,
        weapon: rifle(),
        weapon_cd: 0,
        flash_timer: 0,
        death_anim_t: 0,
    }
}

fn cfg() -> AiCfg {
    AiCfg { detect_radius: 6 * ONE, melee_range: 0, melee_dps: 0, shoot_range: 7 * ONE }
}

fn peaceful() -> AiCfg {
    AiCfg { detect_radius: 6 * ONE, melee_range: 0, melee_dps: 0, shoot_range: -1 }
}

const DT: i32 = 6554; // a tenth of a second

#[test]
fn an_idle_enemy_behind_a_wall_stays_idle_until_the_wall_is_gone() {
    let mut e = guard(q(1.5), q(1.5));
    let mut p = hero(q(5.5), q(1.5));
    let mut events = Vec::new();
    step_enemy(&mut e, &mut p, DT, &cfg(), &hall(true), &[], &mut events);
    assert!(e.state == EnemyState::Idle);
    assert_eq!((e.x, e.y), (q(1.5), q(1.5)));
    assert_eq!(p.hp, 100);
    assert!(events.is_empty());
    // the same enemy, the wall removed
    step_enemy(&mut e, &mut p, DT, &peaceful(), &hall(false), &[], &mut events);
    assert!(e.state == EnemyState::Chase);
}

#[test]
fn an_idle_enemy_too_far_away_stays_idle() {
    let mut e = guard(q(1.5), q(1.5));
    let mut p = hero(q(5.5), q(1.5));
    let near = AiCfg { detect_radius: 4 * ONE, ..cfg() };
    let mut events = Vec::new();
    step_enemy(&mut e, &mut p, DT, &near, &hall(false), &[], &mut events);
    assert!(e.state == EnemyState::Idle);
    // the radius itself is not enough: the distance must be less
    let exact = AiCfg { detect_radius: 4 * ONE + 1, ..peaceful() };
    step_enemy(&mut e, &mut p, DT, &exact, &hall(false), &[], &mut events);
    assert!(e.state == EnemyState::Chase);
}

#[test]
fn a_chasing_enemy_walks_toward_the_player() {
    let map = yard();
    let mut e = guard(q(1.5), q(1.5));
    e.state = EnemyState::Chase;
    move_enemy(&mut e, &hero(q(3.5), q(1.5)), DT, &map, &[]);
    assert_eq!((e.x, e.y), (q(1.5) + 6554, q(1.5)));
    let mut d = guard(q(1.5), q(1.5));
    move_enemy(&mut d, &hero(q(3.5), q(3.5)), DT, &map, &[]);
    assert_eq!((d.x, d.y), (q(1.5) + 4634, q(1.5) + 4634));
    // already there: no step
    let mut s = guard(q(1.5), q(1.5));
    move_enemy(&mut s, &hero(q(1.5), q(1.5)), DT, &map, &[]);
    assert_eq!((s.x, s.y), (q(1.5), q(1.5)));
}

#[test]
fn walls_and_solid_decorations_stop_an_enemy() {
    let map = hall(true);
    // the wall cell begins at x = 3: the footprint may not reach into it
    let mut e = guard(q(2.75), q(1.5));
    move_enemy(&mut e, &hero(q(5.5), q(1.5)), ONE / 10, &map, &[]);
    assert_eq!(e.x, q(2.75));
    let mut f = guard(q(2.5), q(1.5));
    move_enemy(&mut f, &hero(q(5.5), q(1.5)), ONE / 10, &map, &[]);
    assert_eq!(f.x, q(2.5) + 6553);

    let open = hall(false);
    let block = Decoration { x: q(3.0), y: q(1.5), radius: q(0.35), color: Color::Brown, kind: DecoKind::Blocking };
    let mut g = guard(q(2.4), q(1.5));
    move_enemy(&mut g, &hero(q(5.5), q(1.5)), ONE / 10, &open, &[block]);
    assert_eq!(g.x, q(2.4));
    let ghost = Decoration { x: q(3.0), y: q(1.5), radius: q(0.35), color: Color::LightGray, kind: DecoKind::Passable };
    move_enemy(&mut g, &hero(q(5.5), q(1.5)), ONE / 10, &open, &[ghost]);
    assert_eq!(g.x, q(2.4) + 6553);
}

#[test]
fn one_axis_may_move_while_the_other_is_blocked() {
    let map = yard();
    // against the west wall, player to the north-west: only y moves
    let mut e = guard(q(1.2), q(3.5));
    move_enemy(&mut e, &hero(q(0.2), q(2.5)), ONE, &map, &[]);
    assert_eq!(e.x, q(1.2));
    assert!(e.y < q(3.5));
}

#[test]
fn a_chasing_enemy_shoots_when_its_weapon_is_ready() {
    let map = hall(false);
    let mut e = guard(q(1.5), q(1.5));
    e.state = EnemyState::Chase;
    e.speed = 0;
    let mut p = hero(q(5.5), q(1.5));
    p.shield = 10;
    let mut events = Vec::new();
    step_enemy(&mut e, &mut p, DT, &cfg(), &map, &[], &mut events);
    assert_eq!((p.shield, p.hp), (0, 75));
    assert_eq!(events, vec![Feedback::PlayerHurt]);
    assert_eq!(e.weapon_cd, 32768);
    assert_eq!(e.flash_timer, 5243);
    assert!(e.color == Color::Yellow);
    // the weapon is not ready again at once
    step_enemy(&mut e, &mut p, DT, &cfg(), &map, &[], &mut events);
    assert_eq!(p.hp, 75);
    assert_eq!(e.weapon_cd, 32768 - DT);
    assert_eq!(events.len(), 1);
    // out of range nothing is shot
    let mut far = guard(q(1.5), q(1.5));
    far.state = EnemyState::Chase;
    far.speed = 0;
    let short = AiCfg { shoot_range: 3 * ONE, ..cfg() };
    step_enemy(&mut far, &mut p, DT, &short, &map, &[], &mut events);
    assert_eq!(p.hp, 75);
    // at exactly the range it is
    let exact = AiCfg { shoot_range: 4 * ONE, ..cfg() };
    step_enemy(&mut far, &mut p, DT, &exact, &map, &[], &mut events);
    assert_eq!(p.hp, 40);
}

#[test]
fn the_last_shot_reports_the_death_once() {
    let map = hall(false);
    let mut e = guard(q(1.5), q(1.5));
    e.state = EnemyState::Chase;
    e.speed = 0;
    let mut p = hero(q(5.5), q(1.5));
    p.hp = 20;
    let mut events = Vec::new();
    step_enemy(&mut e, &mut p, DT, &cfg(), &map, &[], &mut events);
    assert_eq!(p.hp, 0);
    assert_eq!(events, vec![Feedback::PlayerDeath]);
    e.weapon_cd = 0;
    step_enemy(&mut e, &mut p, DT, &cfg(), &map, &[], &mut events);
    assert_eq!(events, vec![Feedback::PlayerDeath]);
}

#[test]
fn melee_hurts_by_the_second() {
    let map = hall(false);
    let mut e = guard(q(1.5), q(1.5));
    e.state = EnemyState::Chase;
    e.speed = 0;
    let mut p = hero(q(2.0), q(1.5));
    let brawl = AiCfg { detect_radius: 6 * ONE, melee_range: ONE, melee_dps: 30 * ONE, shoot_range: -1 };
    let mut events = Vec::new();
    // half a second of thirty points a second
    step_enemy(&mut e, &mut p, ONE / 2, &brawl, &map, &[], &mut events);
    assert_eq!(p.hp, 85);
    assert_eq!(events, vec![Feedback::PlayerHurt]);
    // too short a time rounds to no damage at all
    step_enemy(&mut e, &mut p, ONE / 100, &brawl, &map, &[], &mut events);
    assert_eq!(p.hp, 85);
    assert_eq!(events.len(), 1);
}

#[test]
fn the_colour_shows_the_condition() {
    let map = hall(true);
    let mut p = hero(q(5.5), q(1.5));
    let mut events = Vec::new();
    let mut e = guard(q(1.5), q(1.5));
    e.hp = 40;
    step_enemy(&mut e, &mut p, DT, &cfg(), &map, &[], &mut events);
    assert!(e.color == Color::Pink);
    e.hp = 41;
    step_enemy(&mut e, &mut p, DT, &cfg(), &map, &[], &mut events);
    assert!(e.color == Color::Orange);
    e.flash_timer = DT + 1;
    step_enemy(&mut e, &mut p, DT, &cfg(), &map, &[], &mut events);
    assert!(e.color == Color::Yellow);
    assert_eq!(e.flash_timer, 1);
}

#[test]
fn death_is_final_and_its_clock_runs() {
    let map = hall(false);
    let mut p = hero(q(5.5), q(1.5));
    let mut events = Vec::new();
    let mut e = guard(q(1.5), q(1.5));
    e.state = EnemyState::Chase;
    e.hp = 0;
    e.death_anim_t = 777;
    step_enemy(&mut e, &mut p, DT, &cfg(), &map, &[], &mut events);
    assert!(e.state == EnemyState::Dead);
    // the clock starts at the death
    assert_eq!(e.death_anim_t, DT as i64);
    let mut last = e.death_anim_t;
    for _ in 0..5 {
        e.hp = 50; // even with hit points a dead enemy stays dead
        step_enemy(&mut e, &mut p, DT, &cfg(), &map, &[], &mut events);
        assert!(e.state == EnemyState::Dead);
        assert!(e.death_anim_t > last);
        last = e.death_anim_t;
        assert_eq!((e.x, e.y), (q(1.5), q(1.5)));
        assert_eq!(e.weapon.damage, 35);
        assert!(e.weapon.wtype == WeaponType::Rifle);
    }
    assert_eq!(last, 6 * DT as i64);
    assert_eq!(p.hp, 100);
    assert!(events.is_empty());
}

#[test]
fn enemies_are_ordered_farthest_first() {
    let p = hero(q(1.5), q(1.5));
    let mut enemies = vec![
        guard(q(2.5), q(1.5)),
        guard(q(5.5), q(1.5)),
        guard(q(1.5), q(2.5)),
        guard(q(4.5), q(1.5)),
    ];
    enemies[0].hp = 1;
    enemies[2].hp = 2;
    sort_by_distance(&mut enemies, &p);
    let xs: Vec<(i32, i32)> = enemies.iter().map(|e| (e.x, e.hp)).collect();
    // the two that are one cell away keep their order
    assert_eq!(xs, vec![(q(5.5), 100), (q(4.5), 100), (q(2.5), 1), (q(1.5), 2)]);
}

#[test]
fn a_frame_gives_every_enemy_its_turn() {
    let map = yard();
    let mut p = hero(q(3.5), q(3.5));
    let mut near = guard(q(3.5), q(2.5));
    near.weapon.damage = 10;
    let mut far = guard(q(1.5), q(3.5));
    far.weapon.damage = 30;
    let mut dead = guard(q(5.5), q(5.5));
    dead.hp = 0;
    let mut enemies = vec![near, far, dead];
    let events = update_enemies(&mut enemies, &mut p, DT, &cfg(), &map, &[], &[]);
    // farthest first: the dead one, then the far one, then the near one
    assert!(enemies[0].state == EnemyState::Dead);
    assert_eq!(enemies[0].death_anim_t, DT as i64);
    assert!(enemies[1].state == EnemyState::Chase);
    assert!(enemies[1].x > q(1.5));
    assert!(enemies[2].state == EnemyState::Chase);
    assert!(enemies[2].y > q(2.5));
    assert_eq!(p.hp, 60);
    assert_eq!(events, vec![Feedback::PlayerHurt, Feedback::PlayerHurt]);
}

#[test]
fn a_dead_enemy_changes_in_nothing_but_its_clock() {
    let map = yard();
    let mut p = hero(q(3.5), q(3.5));
    let mut dead = guard(q(1.5), q(3.5));
    dead.state = EnemyState::Dead;
    dead.hp = 0;
    dead.weapon_cd = 30000;
    dead.flash_timer = 4000;
    dead.color = Color::Pink;
    dead.death_anim_t = 100;
    let mut events = Vec::new();
    let mut e = dead;
    step_enemy(&mut e, &mut p, DT, &cfg(), &map, &[], &mut events);
    assert_eq!(e.death_anim_t, 100 + DT as i64);
    assert_eq!((e.weapon_cd, e.flash_timer), (30000, 4000));
    assert!(e.color == Color::Pink);
    assert!(e.state == EnemyState::Dead);
    assert_eq!((e.x, e.y, e.hp, e.speed), (dead.x, dead.y, 0, dead.speed));
    assert_eq!(e.weapon.damage, dead.weapon.damage);
    // the same within a whole frame, beside a living enemy
    let mut enemies = vec![dead, guard(q(3.5), q(2.5))];
    let events = update_enemies(&mut enemies, &mut p, DT, &peaceful(), &map, &[], &[]);
    assert!(events.is_empty());
    let d = enemies.iter().find(|e| e.state == EnemyState::Dead).unwrap();
    assert_eq!(d.death_anim_t, 100 + DT as i64);
    assert_eq!((d.weapon_cd, d.flash_timer), (30000, 4000));
    assert!(d.color == Color::Pink);
    // one that has just lost its last hit point keeps its timers too
    let mut fresh = guard(q(1.5), q(3.5));
    fresh.hp = 0;
    fresh.weapon_cd = 777;
    step_enemy(&mut fresh, &mut p, DT, &cfg(), &map, &[], &mut Vec::new());
    assert!(fresh.state == EnemyState::Dead);
    assert_eq!((fresh.weapon_cd, fresh.death_anim_t), (777, DT as i64));
    // a living enemy's timers do count down
    let mut alive = guard(q(1.5), q(3.5));
    alive.weapon_cd = 30000;
    step_enemy(&mut alive, &mut p, DT, &peaceful(), &hall(true), &[], &mut Vec::new());
    assert_eq!(alive.weapon_cd, 30000 - DT);
}
