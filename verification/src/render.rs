//! One frame: walls first, then sprites over them, and the screen ranges
//! of the enemies for the resolution of attacks.

use vstd::prelude::*;
use crate::consts::SCREEN_W;
use crate::grid::Grid;
use crate::los::magnitude;
use crate::raycast::{
    across, cast_walls, column_angle, column_angle_of, column_depth, forward_part, hit_depth,
    hit_offset, lemma_closer_is_shallower, lemma_depth_square_on, lemma_hit_has_component,
    ray_hit, sideways, walls_at, RayHit, Texture, WallSlice, DEPTH_FAR,
};
use crate::sprites::{
    composite, display_list, far_to_near, ordered_far_first, queue_sprites, queued_sprites,
    range_of, sort_sprites, visible_ranges, Camera, ChestTextures, DrawCmd, EnemyTextures,
    PickupTextures, QueuedSprite,
};
use crate::types::{Chest, Decoration, DrawnSprite, Enemy, Pickup};

verus! {

/// The viewer's pose and projection.
pub struct RenderParams {
    /// Field of view in radians
    pub fov: i32,
    /// Distance of the projection plane
    pub proj_dist: i32,
    pub player_x: i32,
    pub player_y: i32,
    /// Facing angle in radians
    pub player_angle: i32,
}

/// Sines, cosines and tangent of a pose, which the caller works out.
pub struct ViewBasis {
    /// The facing direction, of length one: cosine and sine of the facing
    /// angle. Depths are measured along it.
    pub dir_x: i32,
    pub dir_y: i32,
    /// Tangent of half the field of view
    pub tan_half: i32,
    /// Direction of the ray through each screen column, of any length
    pub column_dirs: Vec<(i32, i32)>,
}

/// What one frame shows, and what later stages need of it.
pub struct RenderOutput {
    /// Distance ahead of the viewer to the wall in each screen column
    pub zbuffer: Vec<i64>,
    /// Screen ranges of the enemies that are not dead
    pub drawn: Vec<DrawnSprite>,
    /// The wall strip of each screen column
    pub walls: Vec<Option<WallSlice>>,
    /// What the sprites draw, in drawing order
    pub sprites: Vec<DrawCmd>,
}

/// The camera of a pose with the given basis.
pub open spec fn camera_of(params: &RenderParams, basis: &ViewBasis) -> Camera {
    Camera {
        px: params.player_x,
        py: params.player_y,
        dir_x: basis.dir_x,
        dir_y: basis.dir_y,
        tan_half: basis.tan_half,
        proj_dist: params.proj_dist,
    }
}

/// The sprites of a frame in drawing order, from far to near.
pub open spec fn frame_sprites(
    enemies: Seq<Enemy>,
    params: &RenderParams,
    basis: &ViewBasis,
    pickups: Seq<Pickup>,
    decorations: Seq<Decoration>,
    chests: Seq<Chest>,
    pickup_textures: &PickupTextures,
    chest_textures: &ChestTextures,
    enemy_textures: &EnemyTextures,
) -> Seq<QueuedSprite> {
    let queue = queued_sprites(
        camera_of(params, basis),
        enemies,
        pickups,
        decorations,
        chests,
        enemy_textures,
        pickup_textures,
        chest_textures,
    );
    far_to_near(queue, queue.len())
}

/// The angle of the ray through each screen column, for the caller to
/// turn into directions.
pub fn column_angles(params: &RenderParams) -> (angles: Vec<i32>)
    ensures
        angles@.len() == SCREEN_W,
        forall|x: int|
            0 <= x < SCREEN_W ==> #[trigger] angles@[x] == column_angle_of(
                x,
                params.player_angle as int,
                params.fov as int,
            ),
{
    let mut angles: Vec<i32> = Vec::new();
    let mut x: i32 = 0;
    while x < SCREEN_W
        invariant
            0 <= x <= SCREEN_W,
            angles@.len() == x,
            forall|i: int|
                0 <= i < x ==> #[trigger] angles@[i] == column_angle_of(
                    i,
                    params.player_angle as int,
                    params.fov as int,
                ),
        decreases SCREEN_W - x,
    {
        angles.push(column_angle(x, params.player_angle, params.fov));
        x = x + 1;
    }
    angles
}

/// Computes one frame. Walls: each screen column shows the strip of the
/// first wall that its ray meets, and the depth buffer holds how far
/// ahead of the viewer that wall was met: the perpendicular distance, not
/// the length of the ray. Sprites: every entity in view is queued, the queue is ordered
/// from far to near, and each sprite draws only the columns in which it is
/// strictly nearer than the wall. Every enemy in view that is not dead is
/// listed with its screen range, hidden by a wall or not.
pub fn draw_frame(
    enemies: &[Enemy],
    params: &RenderParams,
    basis: &ViewBasis,
    map: &Grid,
    pickups: &[Pickup],
    decorations: &[Decoration],
    chests: &[Chest],
    wall_textures: &[Texture],
    pickup_textures: &PickupTextures,
    chest_textures: &ChestTextures,
    enemy_textures: &EnemyTextures,
) -> (out: RenderOutput)
    requires
        wall_textures@.len() > 0,
    ensures
        out.zbuffer@.len() == SCREEN_W,
        out.walls@.len() == SCREEN_W,
        forall|x: int|
            0 <= x < SCREEN_W ==> #[trigger] out.walls@[x] == walls_at(
                map,
                params.player_x as int,
                params.player_y as int,
                basis.dir_x as int,
                basis.dir_y as int,
                params.proj_dist as int,
                basis.column_dirs@,
                wall_textures@,
                x,
            ),
        forall|x: int| 0 <= x < SCREEN_W ==> #[trigger] out.zbuffer@[x] == column_depth(
            out.walls@[x],
        ),
        ({
            let sorted = frame_sprites(
                enemies@,
                params,
                basis,
                pickups@,
                decorations@,
                chests@,
                pickup_textures,
                chest_textures,
                enemy_textures,
            );
            &&& ordered_far_first(sorted)
            &&& out.sprites@ == display_list(sorted, out.zbuffer@, sorted.len())
            &&& out.drawn@ == visible_ranges(sorted, sorted.len())
            &&& forall|i: int|
                0 <= i < sorted.len() && (#[trigger] sorted[i]).enemy_idx is Some
                    ==> out.drawn@.contains(range_of(sorted[i], sorted[i].enemy_idx->0))
        }),
{
    let (zbuffer, walls) = cast_walls(
        map,
        params.player_x,
        params.player_y,
        basis.dir_x,
        basis.dir_y,
        params.proj_dist,
        basis.column_dirs.as_slice(),
        wall_textures,
    );
    let cam: Camera = Camera {
        px: params.player_x,
        py: params.player_y,
        dir_x: basis.dir_x,
        dir_y: basis.dir_y,
        tan_half: basis.tan_half,
        proj_dist: params.proj_dist,
    };
    let queue: Vec<QueuedSprite> = queue_sprites(
        &cam,
        enemies,
        pickups,
        decorations,
        chests,
        enemy_textures,
        pickup_textures,
        chest_textures,
    );
    let sorted: Vec<QueuedSprite> = sort_sprites(queue.as_slice());
    let (sprites, drawn) = composite(sorted.as_slice(), zbuffer.as_slice());
    RenderOutput { zbuffer, drawn, walls, sprites }
}

/// The depth that a frame enters into the depth buffer for column `x`.
pub open spec fn frame_depth(
    map: &Grid,
    params: &RenderParams,
    basis: &ViewBasis,
    wall_textures: Seq<Texture>,
    x: int,
) -> i64 {
    column_depth(
        walls_at(
            map,
            params.player_x as int,
            params.player_y as int,
            basis.dir_x as int,
            basis.dir_y as int,
            params.proj_dist as int,
            basis.column_dirs@,
            wall_textures,
            x,
        ),
    )
}

/// The wall that the ray of column `x` meets.
pub open spec fn frame_hit(map: &Grid, params: &RenderParams, basis: &ViewBasis, x: int) -> Option<
    RayHit,
> {
    ray_hit(
        map,
        params.player_x as int,
        params.player_y as int,
        basis.column_dirs@[x].0 as int,
        basis.column_dirs@[x].1 as int,
    )
}

/// Whether column `x` of a frame shows a wall: it has a ray with a
/// direction, and the strip of the wall that the ray meets has a row on
/// screen.
pub open spec fn shows_wall(
    map: &Grid,
    params: &RenderParams,
    basis: &ViewBasis,
    wall_textures: Seq<Texture>,
    x: int,
) -> bool {
    &&& 0 <= x < basis.column_dirs@.len()
    &&& basis.column_dirs@[x].0 != 0 || basis.column_dirs@[x].1 != 0
    &&& walls_at(
        map,
        params.player_x as int,
        params.player_y as int,
        basis.dir_x as int,
        basis.dir_y as int,
        params.proj_dist as int,
        basis.column_dirs@,
        wall_textures,
        x,
    ) is Some
}

/// The depth of a column that shows a wall is the depth of the wall that
/// its ray meets, measured along the facing direction.
pub proof fn lemma_frame_depth(
    map: &Grid,
    params: &RenderParams,
    basis: &ViewBasis,
    wall_textures: Seq<Texture>,
    x: int,
)
    requires
        shows_wall(map, params, basis, wall_textures, x),
    ensures
        frame_hit(map, params, basis, x) is Some,
        across(
            frame_hit(map, params, basis, x)->0,
            basis.column_dirs@[x].0 as int,
            basis.column_dirs@[x].1 as int,
        ) != 0,
        frame_depth(map, params, basis, wall_textures, x) == hit_depth(
            frame_hit(map, params, basis, x)->0,
            params.player_x as int,
            params.player_y as int,
            basis.column_dirs@[x].0 as int,
            basis.column_dirs@[x].1 as int,
            basis.dir_x as int,
            basis.dir_y as int,
        ),
{
    lemma_hit_has_component(
        map,
        params.player_x as int,
        params.player_y as int,
        basis.column_dirs@[x].0 as int,
        basis.column_dirs@[x].1 as int,
    );
}

/// The depth of a wall is its perpendicular distance, not the length of
/// the ray. Where the viewer faces a wall squarely, every column that
/// shows that wall has the depth of the offset from the viewer to the
/// wall's face, however far to the left or right the column's ray goes
/// and whatever the length of its direction.
pub proof fn lemma_flat_wall_has_one_depth(
    map: &Grid,
    params: &RenderParams,
    basis: &ViewBasis,
    wall_textures: Seq<Texture>,
    x: int,
)
    requires
        shows_wall(map, params, basis, wall_textures, x),
        magnitude(
            across(frame_hit(map, params, basis, x)->0, basis.dir_x as int, basis.dir_y as int),
        ) == 65536,
        sideways(frame_hit(map, params, basis, x)->0, basis.dir_x as int, basis.dir_y as int) == 0,
    ensures
        frame_depth(map, params, basis, wall_textures, x) == magnitude(
            hit_offset(
                frame_hit(map, params, basis, x)->0,
                params.player_x as int,
                params.player_y as int,
            ),
        ),
{
    lemma_frame_depth(map, params, basis, wall_textures, x);
    lemma_depth_square_on(
        frame_hit(map, params, basis, x)->0,
        params.player_x as int,
        params.player_y as int,
        basis.column_dirs@[x].0 as int,
        basis.column_dirs@[x].1 as int,
        basis.dir_x as int,
        basis.dir_y as int,
    );
}

/// Two columns that show the same face of a wall that the viewer faces
/// squarely have the same depth.
pub proof fn lemma_columns_share_depth(
    map: &Grid,
    params: &RenderParams,
    basis: &ViewBasis,
    wall_textures: Seq<Texture>,
    x1: int,
    x2: int,
)
    requires
        shows_wall(map, params, basis, wall_textures, x1),
        shows_wall(map, params, basis, wall_textures, x2),
        magnitude(
            across(frame_hit(map, params, basis, x1)->0, basis.dir_x as int, basis.dir_y as int),
        ) == 65536,
        sideways(frame_hit(map, params, basis, x1)->0, basis.dir_x as int, basis.dir_y as int)
            == 0,
        frame_hit(map, params, basis, x1)->0.side == frame_hit(map, params, basis, x2)->0.side,
        hit_offset(
            frame_hit(map, params, basis, x1)->0,
            params.player_x as int,
            params.player_y as int,
        ) == hit_offset(
            frame_hit(map, params, basis, x2)->0,
            params.player_x as int,
            params.player_y as int,
        ),
    ensures
        frame_depth(map, params, basis, wall_textures, x1) == frame_depth(
            map,
            params,
            basis,
            wall_textures,
            x2,
        ),
{
    lemma_flat_wall_has_one_depth(map, params, basis, wall_textures, x1);
    lemma_flat_wall_has_one_depth(map, params, basis, wall_textures, x2);
}

/// Moving the viewer closer to a wall strictly decreases the depth of
/// the columns that show it. `far` and `near` are two poses of which
/// column `x` shows the same face of the same wall, `near` with the
/// smaller offset to it, and the far depth below `DEPTH_FAR`. The move
/// must show at the grain of the depth:
/// the offset shrinks by at least one step of depth. Where the viewer
/// faces the wall squarely every move does, and the depth shrinks by
/// exactly as much as the offset.
pub proof fn lemma_frame_closer_is_shallower(
    map: &Grid,
    far: &RenderParams,
    near: &RenderParams,
    basis: &ViewBasis,
    wall_textures: Seq<Texture>,
    x: int,
)
    requires
        shows_wall(map, far, basis, wall_textures, x),
        shows_wall(map, near, basis, wall_textures, x),
        frame_depth(map, far, basis, wall_textures, x) < DEPTH_FAR,
        frame_hit(map, far, basis, x) == frame_hit(map, near, basis, x),
        magnitude(
            hit_offset(
                frame_hit(map, near, basis, x)->0,
                near.player_x as int,
                near.player_y as int,
            ),
        ) < magnitude(
            hit_offset(frame_hit(map, far, basis, x)->0, far.player_x as int, far.player_y as int),
        ),
        (magnitude(
            hit_offset(frame_hit(map, far, basis, x)->0, far.player_x as int, far.player_y as int),
        ) - magnitude(
            hit_offset(
                frame_hit(map, near, basis, x)->0,
                near.player_x as int,
                near.player_y as int,
            ),
        )) * forward_part(
            basis.column_dirs@[x].0 as int,
            basis.column_dirs@[x].1 as int,
            basis.dir_x as int,
            basis.dir_y as int,
        ) >= magnitude(
            across(
                frame_hit(map, far, basis, x)->0,
                basis.column_dirs@[x].0 as int,
                basis.column_dirs@[x].1 as int,
            ),
        ) * 65536 || (magnitude(
            across(frame_hit(map, far, basis, x)->0, basis.dir_x as int, basis.dir_y as int),
        ) == 65536 && sideways(
            frame_hit(map, far, basis, x)->0,
            basis.dir_x as int,
            basis.dir_y as int,
        ) == 0),
    ensures
        frame_depth(map, near, basis, wall_textures, x) < frame_depth(
            map,
            far,
            basis,
            wall_textures,
            x,
        ),
        magnitude(
            across(frame_hit(map, far, basis, x)->0, basis.dir_x as int, basis.dir_y as int),
        ) == 65536 && sideways(
            frame_hit(map, far, basis, x)->0,
            basis.dir_x as int,
            basis.dir_y as int,
        ) == 0 ==> frame_depth(map, far, basis, wall_textures, x) - frame_depth(
            map,
            near,
            basis,
            wall_textures,
            x,
        ) == magnitude(
            hit_offset(frame_hit(map, far, basis, x)->0, far.player_x as int, far.player_y as int),
        ) - magnitude(
            hit_offset(
                frame_hit(map, near, basis, x)->0,
                near.player_x as int,
                near.player_y as int,
            ),
        ),
{
    let hit = frame_hit(map, far, basis, x)->0;
    lemma_frame_depth(map, far, basis, wall_textures, x);
    lemma_frame_depth(map, near, basis, wall_textures, x);
    if magnitude(across(hit, basis.dir_x as int, basis.dir_y as int)) == 65536 && sideways(
        hit,
        basis.dir_x as int,
        basis.dir_y as int,
    ) == 0 {
        lemma_flat_wall_has_one_depth(map, far, basis, wall_textures, x);
        lemma_flat_wall_has_one_depth(map, near, basis, wall_textures, x);
    } else {
        lemma_closer_is_shallower(
            hit,
            far.player_x as int,
            far.player_y as int,
            near.player_x as int,
            near.player_y as int,
            basis.column_dirs@[x].0 as int,
            basis.column_dirs@[x].1 as int,
            basis.dir_x as int,
            basis.dir_y as int,
        );
    }
}

} // verus!
