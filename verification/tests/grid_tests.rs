use raycaster::grid::Grid;
use raycaster::level::Level;
use raycaster::los::has_los;

const U: i32 = 65536;

fn at(cells: f64) -> i32 {
    (cells * 65536.0) as i32
}

// 5 by 5, walled in, one pillar in the middle
fn pillar_room() -> Grid {
    let text = "11111\n10001\n10201\n10001\n11111\n";
    Level::from_txt(text).unwrap().grid
}

fn open_room() -> Grid {
    Level::from_txt("11111\n10001\n10001\n10001\n11111").unwrap().grid
}

#[test]
fn new_grid_needs_matching_cells() {
    assert!(Grid::new(2, 2, vec![0, 0, 0, 0]).is_some());
    assert!(Grid::new(2, 2, vec![0, 0, 0]).is_none());
    assert!(Grid::new(32769, 0, vec![]).is_none());
    assert!(Grid::new(0, 0, vec![]).is_some());
}

#[test]
fn cells_are_read_row_by_row() {
    let g = Grid::new(3, 2, vec![0, 1, 2, 3, 4, 5]).unwrap();
    assert_eq!(g.w(), 3);
    assert_eq!(g.h(), 2);
    assert_eq!(g.at(0, 0), 0);
    assert_eq!(g.at(2, 0), 2);
    assert_eq!(g.at(0, 1), 3);
    assert_eq!(g.at(2, 1), 5);
    assert!(!g.is_solid(0, 0));
    assert!(g.is_solid(1, 0));
}

#[test]
fn outside_the_grid_is_wall() {
    let g = Grid::new(3, 2, vec![0; 6]).unwrap();
    for (x, y) in [(-1, 0), (0, -1), (3, 0), (0, 2), (i32::MIN, i32::MIN), (i32::MAX, i32::MAX)] {
        assert_ne!(g.at(x, y), 0);
        assert!(g.is_solid(x, y));
    }
    let empty = Grid::new(0, 0, vec![]).unwrap();
    assert_ne!(empty.at(0, 0), 0);
}

#[test]
fn level_text_gives_cells_and_spawns() {
    let text = "111\n1P1\n\n   \n1E#\r\n19\n";
    let level = Level::from_txt(text).unwrap();
    let g = &level.grid;
    assert_eq!(g.w(), 3);
    assert_eq!(g.h(), 4);
    assert_eq!(g.at(1, 1), 0);
    assert_eq!(g.at(2, 2), 1);
    assert_eq!(g.at(1, 2), 0);
    assert_eq!(g.at(1, 3), 9);
    // the short last row is filled up with wall 1
    assert_eq!(g.at(2, 3), 1);
    assert_eq!(level.player_spawn, Some((U + U / 2, U + U / 2)));
    assert_eq!(level.enemy_spawns, vec![(U + U / 2, 2 * U + U / 2)]);
    assert!(level.chest_spawns.is_empty());
}

#[test]
fn level_marks_are_listed_in_reading_order() {
    let level = Level::from_txt("EPE\nPCE\nhsw\nmBb").unwrap();
    assert_eq!(level.player_spawn, Some((U + U / 2, U / 2)));
    assert_eq!(
        level.enemy_spawns,
        vec![(U / 2, U / 2), (2 * U + U / 2, U / 2), (2 * U + U / 2, U + U / 2)]
    );
    assert_eq!(level.chest_spawns, vec![(U + U / 2, U + U / 2)]);
    assert_eq!(level.heal_random_spawns, vec![(U / 2, 2 * U + U / 2)]);
    assert_eq!(level.shield_random_spawns, vec![(U + U / 2, 2 * U + U / 2)]);
    assert_eq!(level.weapon_random_spawns, vec![(2 * U + U / 2, 2 * U + U / 2)]);
    assert_eq!(level.ammo_random_spawns, vec![(U / 2, 3 * U + U / 2)]);
    assert_eq!(level.deco_block_spawns, vec![(U + U / 2, 3 * U + U / 2)]);
    assert_eq!(level.deco_ghost_spawns, vec![(2 * U + U / 2, 3 * U + U / 2)]);
    assert!(level.health_small_spawns.is_empty());
    assert!(level.shield_small_spawns.is_empty());
    // every mark stands on open floor
    assert_eq!(level.grid.at(0, 0), 0);
    assert_eq!(level.grid.at(1, 3), 0);
}

#[test]
fn level_without_rows_is_refused() {
    assert_eq!(Level::from_txt("").err().unwrap(), "El archivo de mapa está vacío");
    assert_eq!(Level::from_txt("\n  \n\t\r\n").err().unwrap(), "El archivo de mapa está vacío");
}

#[test]
fn level_too_wide_is_refused() {
    let line: String = std::iter::repeat('0').take(32769).collect();
    assert_eq!(Level::from_txt(&line).err().unwrap(), "El mapa es demasiado grande");
    let ok: String = std::iter::repeat('0').take(32768).collect();
    assert!(Level::from_txt(&ok).is_ok());
}

#[test]
fn a_carriage_return_without_line_feed_is_a_cell() {
    let level = Level::from_txt("11\n1\r").unwrap();
    assert_eq!(level.grid.w(), 2);
    assert_eq!(level.grid.at(1, 1), 0);
}

#[test]
fn sight_within_one_cell() {
    let g = pillar_room();
    assert!(has_los(&g, at(1.2), at(1.2), at(1.8), at(1.7)));
    // even inside a wall cell
    assert!(has_los(&g, at(2.1), at(2.1), at(2.9), at(2.9)));
    assert!(has_los(&g, at(1.5), at(1.5), at(1.5), at(1.5)));
}

#[test]
fn sight_along_a_clear_row() {
    let g = pillar_room();
    assert!(has_los(&g, at(1.5), at(1.5), at(3.5), at(1.5)));
    assert!(has_los(&g, at(3.5), at(1.5), at(1.5), at(1.5)));
    assert!(has_los(&g, at(1.5), at(1.5), at(1.5), at(3.5)));
}

#[test]
fn a_wall_between_blocks_sight() {
    let g = pillar_room();
    assert!(!has_los(&g, at(1.5), at(2.5), at(3.5), at(2.5)));
    assert!(!has_los(&g, at(3.5), at(2.5), at(1.5), at(2.5)));
    assert!(!has_los(&g, at(2.5), at(1.5), at(2.5), at(3.5)));
    // through the pillar's corner the walk turns into the pillar
    assert!(!has_los(&g, at(1.5), at(1.5), at(3.5), at(3.5)));
    // without the pillar the same pairs see each other
    let open = open_room();
    assert!(has_los(&open, at(1.5), at(2.5), at(3.5), at(2.5)));
    assert!(has_los(&open, at(1.5), at(1.5), at(3.5), at(3.5)));
}

#[test]
fn a_target_in_a_wall_cell_is_seen_from_next_to_it() {
    let g = pillar_room();
    assert!(has_los(&g, at(1.5), at(2.5), at(2.5), at(2.5)));
}

#[test]
fn sight_ends_at_the_edge_of_the_world() {
    let g = open_room();
    assert!(!has_los(&g, at(1.5), at(1.5), at(7.5), at(1.5)));
    assert!(!has_los(&g, at(-3.5), at(1.5), at(1.5), at(1.5)));
    let empty = Grid::new(0, 0, vec![]).unwrap();
    assert!(!has_los(&empty, at(0.5), at(0.5), at(0.5), at(1.5)));
}
