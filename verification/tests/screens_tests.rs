use raycaster::grid::Grid;
use raycaster::hud::{
    bar_fill, clock, consumable_bg, cooldown_colors_for_health, cooldown_colors_for_shield,
    rarity_bg, slot_short_text, Minimap,
};
use raycaster::level::Level;
use raycaster::menu::{contains, Menu, MenuAction, ScreenInput, VictoryAction, VictoryScreen};
use raycaster::player::{cell_open, handle_input, turn_player, Keys, MoveCfg, PI};
use raycaster::types::{Color, ConsumableType, Item, Player, Rarity};

const ONE: i32 = 65536;

fn q(cells: f64) -> i32 {
    (cells * 65536.0) as i32
}

fn walker(x: i32, y: i32) -> Player {
    Player {
        x,
        y,
        angle: 0,
        hp: 100,
        shield: 0,
        ammo_reserve: [0; 5],
        slots: [None, None, None, None, None],
        selected: None,
        punch_cd: 0,
    }
}

fn keys(left: bool, right: bool, forward: bool, back: bool) -> Keys {
    Keys { left, right, forward, back }
}

fn cfg() -> MoveCfg {
    MoveCfg { move_speed: 3 * ONE, rot_speed: 163840 }
}

fn room() -> Grid {
    Level::from_txt("11111\n10001\n10001\n10001\n11111").unwrap().grid
}

fn quiet(x: i32, y: i32) -> ScreenInput {
    ScreenInput { mouse_x: x, mouse_y: y, click: false, enter: false, space: false, key_m: false }
}

#[test]
fn turning_wraps_at_half_a_turn() {
    let mut p = walker(0, 0);
    turn_player(&mut p, &keys(false, true, false, false), &cfg(), ONE / 2);
    assert_eq!(p.angle, 81920);
    turn_player(&mut p, &keys(true, false, false, false), &cfg(), ONE);
    assert_eq!(p.angle, 81920 - 163840);
    turn_player(&mut p, &keys(true, true, false, false), &cfg(), ONE);
    assert_eq!(p.angle, -81920);
    p.angle = PI - 10;
    turn_player(&mut p, &keys(false, true, false, false), &cfg(), ONE / 2);
    assert_eq!(p.angle, PI - 10 + 81920 - 2 * PI);
    p.angle = -PI + 10;
    turn_player(&mut p, &keys(true, false, false, false), &cfg(), ONE / 2);
    assert_eq!(p.angle, -PI + 10 - 81920 + 2 * PI);
    turn_player(&mut p, &keys(false, false, true, true), &cfg(), ONE / 2);
    assert_eq!(p.angle, PI + 10 - 81920);
}

#[test]
fn walking_follows_the_direction_until_a_wall() {
    let map = room();
    let mut p = walker(q(2.5), q(2.5));
    // a tenth of a second at three cells a second, east
    handle_input(&mut p, &keys(false, false, true, false), &cfg(), 6554, ONE, 0, &map, &[], &[]);
    assert_eq!((p.x, p.y), (q(2.5) + 19662, q(2.5)));
    handle_input(&mut p, &keys(false, false, false, true), &cfg(), 6554, ONE, 0, &map, &[], &[]);
    assert_eq!((p.x, p.y), (q(2.5), q(2.5)));
    handle_input(&mut p, &keys(false, false, true, true), &cfg(), 6554, ONE, 0, &map, &[], &[]);
    assert_eq!((p.x, p.y), (q(2.5), q(2.5)));
    handle_input(&mut p, &keys(true, true, false, false), &cfg(), 6554, ONE, 0, &map, &[], &[]);
    assert_eq!((p.x, p.y), (q(2.5), q(2.5)));
    // a long stride into the wall is refused; sliding along it is not
    handle_input(&mut p, &keys(false, false, true, false), &cfg(), ONE, 46341, 5000, &map, &[], &[]);
    assert_eq!(p.x, q(2.5));
    assert_eq!(p.y, q(2.5) + ((5000i64 * 3 * 65536) / 65536) as i32);
    assert!(cell_open(&map, 1, 1));
    assert!(!cell_open(&map, 0, 1));
    assert!(!cell_open(&map, 1 << 40, 1));
}

#[test]
fn the_minimap_sits_in_the_corner() {
    let mut m = Minimap::new();
    assert_eq!(m.bounds(), (1280 - 10 - 180, 10, 180, 140));
    m.handle_input(false);
    assert!(!m.expanded);
    m.handle_input(true);
    assert!(m.expanded);
    assert_eq!(m.bounds(), (1280 - 10 - 420, 10, 420, 320));
    m.handle_input(true);
    assert!(!m.expanded);
}

#[test]
fn the_clock_and_the_bars() {
    assert_eq!(clock(0), (0, 0));
    assert_eq!(clock(-5), (0, 0));
    assert_eq!(clock(59 * 65536 + 65535), (0, 59));
    assert_eq!(clock(60 * 65536), (1, 0));
    assert_eq!(clock(3725 * 65536), (62, 5));
    assert_eq!(bar_fill(420, 50, 100), 210);
    assert_eq!(bar_fill(420, 150, 100), 420);
    assert_eq!(bar_fill(420, -3, 100), 0);
    assert_eq!(bar_fill(420, 1, 3), 140);
    assert_eq!(bar_fill(420, 5, 0), 0);
    assert_eq!(bar_fill(-4, 5, 10), 0);
    assert!(rarity_bg(Rarity::Epic) == Color::Rgba(140, 70, 180, 220));
    assert!(consumable_bg(ConsumableType::ShieldSmall) == Color::Rgba(120, 180, 230, 220));
    assert!(consumable_bg(ConsumableType::HealthBig) == Color::Rgba(120, 210, 120, 220));
    assert!(cooldown_colors_for_health().0 == Color::Rgba(77, 209, 72, 255));
    assert!(cooldown_colors_for_shield().1 == Color::Rgba(10, 25, 40, 210));
    let (text, color) = slot_short_text(&Item::Consumable(ConsumableType::HealthBig));
    assert_eq!(text, "HP+100");
    assert!(color == Color::White);
}

#[test]
fn the_start_screen_starts_on_key_or_click() {
    let mut m = Menu::new();
    assert_eq!(m.title, "PROYECTO RAYCAST");
    assert_eq!(m.btn_text, "INICIAR");
    assert_eq!(m.button_rect(), (510, 448, 260, 64));
    assert!(contains(m.button_rect(), 510, 448));
    assert!(contains(m.button_rect(), 770, 512));
    assert!(!contains(m.button_rect(), 771, 512));
    assert!(m.handle_input(&quiet(600, 460)) == MenuAction::Stay);
    assert!(m.hovered);
    assert!(m.handle_input(&ScreenInput { click: true, ..quiet(600, 460) }) == MenuAction::Start);
    assert!(m.handle_input(&ScreenInput { click: true, ..quiet(0, 0) }) == MenuAction::Stay);
    assert!(!m.hovered);
    assert!(m.handle_input(&ScreenInput { enter: true, ..quiet(0, 0) }) == MenuAction::Start);
    assert!(m.handle_input(&ScreenInput { space: true, ..quiet(0, 0) }) == MenuAction::Start);
    assert!(m.handle_input(&ScreenInput { key_m: true, ..quiet(0, 0) }) == MenuAction::Stay);
}

#[test]
fn the_victory_screen_leads_on() {
    let mut v = VictoryScreen::new();
    v.set_stats(-9, 4);
    assert_eq!((v.elapsed_secs, v.kills), (0, 4));
    v.set_stats(77, 5);
    assert_eq!((v.elapsed_secs, v.kills), (77, 5));
    assert_eq!(v.btn_menu_rect(), (388, 452, 240, 56));
    assert_eq!(v.btn_restart_rect(), (652, 452, 240, 56));
    assert!(v.handle_input(&quiet(400, 460)) == VictoryAction::Stay);
    assert!(v.hovered_menu && !v.hovered_restart);
    assert!(v.handle_input(&ScreenInput { click: true, ..quiet(400, 460) }) == VictoryAction::ToMenu);
    assert!(v.handle_input(&ScreenInput { click: true, ..quiet(700, 460) }) == VictoryAction::Restart);
    assert!(v.handle_input(&ScreenInput { click: true, ..quiet(640, 460) }) == VictoryAction::Stay);
    assert!(v.handle_input(&ScreenInput { key_m: true, ..quiet(700, 460) }) == VictoryAction::ToMenu);
    // enter comes before everything else
    assert!(
        v.handle_input(&ScreenInput { enter: true, key_m: true, click: true, ..quiet(400, 460) })
            == VictoryAction::Restart
    );
    assert_eq!((v.elapsed_secs, v.kills), (77, 5));
}
