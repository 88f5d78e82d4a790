use raycaster::grid::Grid;
use raycaster::raycast::{
    cast_ray, cast_walls, column_angle, perp_distance, wall_slice, RayHit, Side, Texture,
    WallSlice, DEPTH_FAR,
};
use raycaster::render::{column_angles, RenderParams};

const ONE: i32 = 65536;
const PROJ: i32 = 1108 * 65536;

fn q(cells: f64) -> i32 {
    (cells * 65536.0) as i32
}

fn room() -> Grid {
    // 5 by 5, walled in; the east wall is of variant 3
    let mut cells = vec![0u8; 25];
    for i in 0..5 {
        cells[i] = 1;
        cells[20 + i] = 1;
        cells[i * 5] = 1;
        cells[i * 5 + 4] = 3;
    }
    Grid::new(5, 5, cells).unwrap()
}

fn textures() -> Vec<Texture> {
    vec![
        Texture { id: 10, width: 64, height: 64 },
        Texture { id: 11, width: 32, height: 16 },
        Texture { id: 12, width: 128, height: 128 },
    ]
}

#[test]
fn a_ray_east_meets_the_east_wall() {
    let g = room();
    let hit = cast_ray(&g, q(2.5), q(2.5), ONE, 0).unwrap();
    assert_eq!(hit, RayHit { map_x: 4, map_y: 2, side: Side::X, step_x: 1, step_y: 1 });
    assert_eq!(perp_distance(&hit, q(2.5), q(2.5), ONE, 0, ONE, 0), q(1.5) as i64);
}

#[test]
fn a_ray_north_west_meets_a_wall_from_its_side() {
    let g = room();
    // up and a little left: the ray leaves through the top of its cells
    let hit = cast_ray(&g, q(2.5), q(2.5), -6554, -65208).unwrap();
    assert_eq!(hit, RayHit { map_x: 2, map_y: 0, side: Side::Y, step_x: -1, step_y: -1 });
    // seen along the ray itself, the depth is the length of the ray
    assert_eq!(perp_distance(&hit, q(2.5), q(2.5), -6554, -65208, -6554, -65208), 98800);
    // seen straight up, it is the 1.5 cells to the face
    assert_eq!(perp_distance(&hit, q(2.5), q(2.5), -6554, -65208, 0, -ONE), 98304);
}

#[test]
fn every_ray_meets_a_wall() {
    let g = room();
    for (dx, dy) in [(ONE, 0), (-ONE, 0), (0, ONE), (0, -ONE), (46341, 46341), (1, -ONE), (0, 0)] {
        assert!(cast_ray(&g, q(1.5), q(3.5), dx, dy).is_some());
        assert!(cast_ray(&g, q(-9.5), q(30.5), dx, dy).is_some());
    }
    let empty = Grid::new(0, 0, vec![]).unwrap();
    assert!(cast_ray(&empty, 0, 0, ONE, 0).is_some());
}

#[test]
fn depth_is_far_for_a_ray_along_the_face() {
    let hit = RayHit { map_x: 4, map_y: 2, side: Side::X, step_x: 1, step_y: 1 };
    assert_eq!(perp_distance(&hit, q(2.5), q(2.5), 0, ONE, 0, ONE), DEPTH_FAR);
}

#[test]
fn the_slice_of_a_near_wall_fills_the_column() {
    let g = room();
    let hit = cast_ray(&g, q(2.5), q(2.5), ONE, 0).unwrap();
    let s = wall_slice(&g, &hit, q(2.5), q(2.5), ONE, 0, ONE, 0, PROJ, &textures(), 7).unwrap();
    assert_eq!(
        s,
        WallSlice {
            x: 7,
            top: 0,
            bottom: 719,
            tex_index: 2,
            tex_x: 63,
            src_y: 105993,
            src_h: 8176621,
            shaded: false,
            depth: 98304,
        }
    );
}

#[test]
fn the_slice_of_a_far_wall_is_short_and_centred() {
    let hit = RayHit { map_x: 12, map_y: 2, side: Side::X, step_x: 1, step_y: 1 };
    let g = room();
    // the cell lies outside the grid: wall 1, the first texture
    let s = wall_slice(&g, &hit, q(2.0), q(2.5), ONE, 0, ONE, 0, PROJ, &textures(), 0).unwrap();
    assert_eq!(s.depth, 10 * 65536);
    assert_eq!((s.top, s.bottom), (304, 415));
    assert_eq!(s.tex_index, 0);
    assert_eq!(s.src_y, 0);
    assert_eq!(s.src_h, 4239730);
    // struck in the middle of the face, mirrored: 64 - 32 - 1
    assert_eq!(s.tex_x, 31);
}

#[test]
fn a_wall_without_its_own_texture_takes_the_first() {
    let g = room();
    let hit = cast_ray(&g, q(2.5), q(2.5), ONE, 0).unwrap();
    let one = vec![Texture { id: 1, width: 64, height: 64 }];
    let s = wall_slice(&g, &hit, q(2.5), q(2.5), ONE, 0, ONE, 0, PROJ, &one, 0).unwrap();
    assert_eq!(s.tex_index, 0);
}

#[test]
fn sides_that_face_along_y_are_shaded() {
    let g = room();
    let hit = cast_ray(&g, q(2.5), q(2.5), 0, ONE).unwrap();
    assert_eq!(hit.side, Side::Y);
    let s = wall_slice(&g, &hit, q(2.5), q(2.5), 0, ONE, 0, ONE, PROJ, &textures(), 0).unwrap();
    assert!(s.shaded);
    // not mirrored for a ray that goes down: half of 64
    assert_eq!(s.tex_x, 32);
}

#[test]
fn height_goes_with_one_over_depth() {
    let g = room();
    let hit_near = RayHit { map_x: 4, map_y: 2, side: Side::X, step_x: 1, step_y: 1 };
    let near =
        wall_slice(&g, &hit_near, q(2.0), q(2.5), ONE, 0, ONE, 0, 100 * ONE, &textures(), 0).unwrap();
    let far =
        wall_slice(&g, &hit_near, q(0.0), q(2.5), ONE, 0, ONE, 0, 100 * ONE, &textures(), 0).unwrap();
    assert_eq!(near.depth, 2 * 65536);
    assert_eq!(far.depth, 4 * 65536);
    // 50 pixels at two cells, 25 at four
    assert_eq!((near.top, near.bottom), (335, 385));
    assert_eq!((far.top, far.bottom), (347, 372));
}

#[test]
fn rays_across_a_flat_wall_share_its_depth() {
    // a viewer faces the east wall squarely; rays of any length and slant
    let g = room();
    let rays = [(ONE, 0), (ONE, ONE / 4), (56756, -32768), (3 * ONE, ONE), (20000, 5000)];
    for (dx, dy) in rays {
        let hit = cast_ray(&g, q(1.5), q(2.5), dx, dy).unwrap();
        assert_eq!((hit.map_x, hit.side), (4, Side::X));
        assert_eq!(perp_distance(&hit, q(1.5), q(2.5), dx, dy, ONE, 0), q(2.5) as i64);
    }
    // the ray a quarter to the side travels farther than that
    let travelled = ((2.5f64 * 2.5 + 0.625 * 0.625).sqrt() * 65536.0) as i64;
    assert!(travelled > q(2.5) as i64);
    let straight = cast_ray(&g, q(1.5), q(2.5), ONE, 0).unwrap();
    let slanted = cast_ray(&g, q(1.5), q(2.5), 56756, 32768).unwrap();
    let a = wall_slice(&g, &straight, q(1.5), q(2.5), ONE, 0, ONE, 0, PROJ, &textures(), 0).unwrap();
    let b =
        wall_slice(&g, &slanted, q(1.5), q(2.5), 56756, 32768, ONE, 0, PROJ, &textures(), 1).unwrap();
    assert_eq!((a.top, a.bottom), (b.top, b.bottom));
    assert_eq!(a.depth, b.depth);
    // but they strike the face at different places
    assert_ne!(a.tex_x, b.tex_x);
}

#[test]
fn depth_is_measured_along_the_view_not_along_the_ray() {
    // a viewer who looks 30 degrees to the side of the ray
    let g = room();
    let hit = cast_ray(&g, q(1.5), q(2.5), ONE, 0).unwrap();
    let along_ray = perp_distance(&hit, q(1.5), q(2.5), ONE, 0, ONE, 0);
    let aside = perp_distance(&hit, q(1.5), q(2.5), ONE, 0, 56756, 32768);
    assert_eq!(along_ray, 163840);
    // 2.5 cells times the cosine of 30 degrees
    assert_eq!(aside, 163840i64 * 56756 / 65536);
    // a ray at a right angle to the view ends on the viewer's own plane
    assert_eq!(perp_distance(&hit, q(1.5), q(2.5), ONE, 0, 0, ONE), 0);
}

#[test]
fn stepping_closer_lowers_the_depth() {
    let g = room();
    let mut last = i64::MAX;
    let mut last_px = 0;
    for px in [q(1.0), q(1.5), q(2.0), q(3.0), q(3.5), q(3.5) + 1] {
        let hit = cast_ray(&g, px, q(2.5), 60000, 20000).unwrap();
        assert_eq!((hit.map_x, hit.side), (4, Side::X));
        let d = perp_distance(&hit, px, q(2.5), 60000, 20000, ONE, 0);
        assert!(d < last);
        if last != i64::MAX {
            // facing the wall, the depth falls by as much as the viewer steps
            assert_eq!(last - d, (px - last_px) as i64);
        }
        last = d;
        last_px = px;
    }
}

#[test]
fn walls_fill_the_depth_buffer() {
    let g = room();
    let dirs = vec![(ONE, 0), (56756, -32768), (56756, 32768)];
    let (zbuffer, walls) = cast_walls(&g, q(2.5), q(2.5), ONE, 0, PROJ, &dirs, &textures());
    assert_eq!(zbuffer.len(), 1280);
    assert_eq!(walls.len(), 1280);
    assert_eq!(zbuffer[0], 98304);
    assert_eq!(zbuffer[1], 98304);
    assert_eq!(zbuffer[2], 98304);
    assert_eq!(walls[0].unwrap().x, 0);
    assert_eq!(walls[2].unwrap().x, 2);
    assert_eq!(walls[2].unwrap().tex_index, 2);
    // columns without a direction show nothing
    assert!(walls[3].is_none());
    assert_eq!(zbuffer[3], DEPTH_FAR);
    assert_eq!(zbuffer[1279], DEPTH_FAR);
}

#[test]
fn a_wall_not_seen_leaves_the_depth_far() {
    // with a negative projection distance the strip turns inside out
    let g = room();
    let dirs = vec![(ONE, 0)];
    let (zbuffer, walls) = cast_walls(&g, q(2.5), q(2.5), ONE, 0, -PROJ, &dirs, &textures());
    assert!(walls[0].is_none());
    assert_eq!(zbuffer[0], DEPTH_FAR);
}

#[test]
fn column_angles_span_the_field_of_view() {
    let fov = 68629; // 60 degrees
    assert_eq!(column_angle(0, 1000, fov), 1000 - fov / 2);
    assert_eq!(column_angle(640, 1000, fov), 1000);
    assert_eq!(column_angle(1280, 1000, fov), 1000 + fov / 2);
    assert_eq!(column_angle(320, 0, fov), -(fov / 4));
    let params = RenderParams { fov, proj_dist: PROJ, player_x: 0, player_y: 0, player_angle: -5 };
    let angles = column_angles(&params);
    assert_eq!(angles.len(), 1280);
    assert_eq!(angles[0], -5 - fov / 2);
    assert_eq!(angles[640], -5);
    assert_eq!(angles[1279], -5 + ((2 * 1279 - 1280) as i64 * fov as i64 / 2560) as i32);
}
