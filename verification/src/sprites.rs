//! Sprite compositing: point entities projected to billboards on screen,
//! ordered from far to near, and drawn column by column where no wall is
//! nearer.

use vstd::prelude::*;
use crate::consts::{SCREEN_H, SCREEN_W};
use crate::fixed::{
    clamp, clamp_to_i32, clamp_to_i64, div_toward_zero, div_toward_zero_wide, div_trunc, mul_wide,
};
use crate::order::{descending, is_descending, lemma_descending_sorts, lemma_insert_position_skips};
use crate::raycast::Texture;
use crate::types::{
    Chest, Color, DecoKind, Decoration, DrawnSprite, Enemy, EnemyState, Pickup, PickupKind,
    Rarity, WeaponType,
};

verus! {

/// Entities no farther ahead than this are not drawn.
pub const NEAR_LIMIT: i64 = 6;

/// Pickups nearer than this (0.2 cells) are not drawn.
pub const PICKUP_NEAR: i64 = 13107;

/// The viewer: position, facing direction, the tangent of half the field
/// of view, and the projection distance.
#[derive(Clone, Copy)]
pub struct Camera {
    pub px: i32,
    pub py: i32,
    pub dir_x: i32,
    pub dir_y: i32,
    pub tan_half: i32,
    pub proj_dist: i32,
}

/// A point entity as the camera sees it.
#[derive(Clone, Copy, PartialEq, Eq, Structural, Debug)]
pub struct Projected {
    /// Screen column of the entity's centre
    pub screen_x: i32,
    /// Distance ahead of the viewer
    pub depth: i64,
    /// Height in pixels of something one cell tall at that distance
    pub height: i32,
}

impl Camera {
    /// The camera plane, at a right angle to the facing direction and as
    /// long as the tangent of half the field of view.
    pub open spec fn plane_x(&self) -> int {
        div_trunc(-(self.dir_y * self.tan_half), 65536)
    }

    pub open spec fn plane_y(&self) -> int {
        div_trunc(self.dir_x * self.tan_half, 65536)
    }

    /// Determinant of the matrix whose columns are plane and direction.
    pub open spec fn det(&self) -> int {
        self.plane_x() * self.dir_y - self.dir_x * self.plane_y()
    }

    /// Sideways camera coordinate of `(x, y)`, times the determinant.
    pub open spec fn lateral(&self, x: int, y: int) -> int {
        self.dir_y * (x - self.px) - self.dir_x * (y - self.py)
    }

    /// Forward camera coordinate of `(x, y)`, times the determinant.
    pub open spec fn forward(&self, x: int, y: int) -> int {
        -self.plane_y() * (x - self.px) + self.plane_x() * (y - self.py)
    }

    /// Distance of `(x, y)` ahead of the viewer.
    pub open spec fn depth_of(&self, x: int, y: int) -> int
        recommends
            self.det() != 0,
    {
        let d = self.det();
        let f = self.forward(x, y);
        clamp(
            if d < 0 {
                div_trunc(-f * 65536, -d)
            } else {
                div_trunc(f * 65536, d)
            },
            i64::MIN as int,
            i64::MAX as int,
        )
    }

    /// Screen column of `(x, y)`: half the screen's width times one plus
    /// the ratio of the sideways to the forward coordinate.
    pub open spec fn screen_x_of(&self, x: int, y: int) -> int
        recommends
            self.forward(x, y) != 0,
    {
        let f = self.forward(x, y);
        let l = self.lateral(x, y);
        let half = SCREEN_W as int / 2;
        clamp(
            if f < 0 {
                div_trunc(half * (-f - l), -f)
            } else {
                div_trunc(half * (f + l), f)
            },
            i32::MIN as int,
            i32::MAX as int,
        )
    }

    /// The projection of `(x, y)`, unless the point lies behind the viewer
    /// or no farther ahead than `NEAR_LIMIT`.
    pub open spec fn projection(&self, x: int, y: int) -> Option<Projected> {
        if self.det() == 0 || self.depth_of(x, y) <= NEAR_LIMIT {
            None
        } else {
            let depth = self.depth_of(x, y);
            Some(
                Projected {
                    screen_x: self.screen_x_of(x, y) as i32,
                    depth: depth as i64,
                    height: div_trunc(self.proj_dist as int, depth) as i32,
                },
            )
        }
    }

    /// Projects the point `(x, y)` of the world onto the screen.
    pub fn project(&self, x: i32, y: i32) -> (p: Option<Projected>)
        ensures
            p == self.projection(x as int, y as int),
            p is Some ==> p->0.depth > NEAR_LIMIT,
    {
        let dx: i64 = self.dir_x as i64;
        let dy: i64 = self.dir_y as i64;
        let th: i64 = self.tan_half as i64;
        assert(-0x8000_0000 * 0x8000_0000 <= dy * th <= 0x8000_0000 * 0x8000_0000
            && -0x8000_0000 * 0x8000_0000 <= dx * th <= 0x8000_0000 * 0x8000_0000)
            by (nonlinear_arith)
            requires
                -0x8000_0000 <= dx <= 0x8000_0000,
                -0x8000_0000 <= dy <= 0x8000_0000,
                -0x8000_0000 <= th <= 0x8000_0000,
        ;
        let plane_x: i64 = div_toward_zero(-(dy * th), 65536);
        let plane_y: i64 = div_toward_zero(dx * th, 65536);
        assert(-0x4000_0000_0000 <= plane_x <= 0x4000_0000_0000);
        assert(-0x4000_0000_0000 <= plane_y <= 0x4000_0000_0000);
        let rel_x: i64 = x as i64 - self.px as i64;
        let rel_y: i64 = y as i64 - self.py as i64;
        let a: i128 = mul_wide(plane_x, dy);
        let b: i128 = mul_wide(dx, plane_y);
        let c: i128 = mul_wide(dy, rel_x);
        let d: i128 = mul_wide(dx, rel_y);
        let e: i128 = mul_wide(-plane_y, rel_x);
        let f: i128 = mul_wide(plane_x, rel_y);
        proof {
            lemma_product_bound(plane_x as int, dy as int, 0x4000_0000_0000, 0x8000_0000);
            lemma_product_bound(dx as int, plane_y as int, 0x8000_0000, 0x4000_0000_0000);
            lemma_product_bound(dy as int, rel_x as int, 0x8000_0000, 0x1_0000_0000);
            lemma_product_bound(dx as int, rel_y as int, 0x8000_0000, 0x1_0000_0000);
            lemma_product_bound(-plane_y as int, rel_x as int, 0x4000_0000_0000, 0x1_0000_0000);
            lemma_product_bound(plane_x as int, rel_y as int, 0x4000_0000_0000, 0x1_0000_0000);
        }
        let det: i128 = a - b;
        let lat: i128 = c - d;
        let fwd: i128 = e + f;
        assert(det == self.det());
        assert(lat == self.lateral(x as int, y as int));
        assert(fwd == self.forward(x as int, y as int));
        if det == 0 {
            return None;
        }
        let depth: i64 = if det < 0 {
            clamp_to_i64(div_toward_zero_wide(-fwd * 65536, -det))
        } else {
            clamp_to_i64(div_toward_zero_wide(fwd * 65536, det))
        };
        if depth <= NEAR_LIMIT {
            return None;
        }
        let half: i128 = (SCREEN_W / 2) as i128;
        let sx: i128 = if fwd < 0 {
            div_toward_zero_wide(half * (-fwd - lat), -fwd)
        } else {
            assert(fwd != 0) by {
                if fwd == 0 {
                    assert(0int / (det as int) == 0) by (nonlinear_arith)
                        requires
                            det > 0,
                    ;
                    assert(0int / (-(det as int)) == 0) by (nonlinear_arith)
                        requires
                            det < 0,
                    ;
                }
            }
            div_toward_zero_wide(half * (fwd + lat), fwd)
        };
        let screen_x: i32 = clamp_to_i32(clamp_to_i64(sx));
        let height: i64 = div_toward_zero(self.proj_dist as i64, depth);
        assert(-0x8000_0000 <= height <= 0x8000_0000) by {
            let p = self.proj_dist as int;
            let q = depth as int;
            if p >= 0 {
                assert(0 <= p / q <= p) by (nonlinear_arith)
                    requires
                        p >= 0,
                        q >= 1,
                ;
            } else {
                assert(0 <= (-p) / q <= -p) by (nonlinear_arith)
                    requires
                        -p >= 0,
                        q >= 1,
                ;
            }
        }
        Some(Projected { screen_x, depth, height: clamp_to_i32(height) })
    }
}

/// A product of two bounded numbers is bounded by the product of the bounds.
pub proof fn lemma_product_bound(a: int, b: int, ma: int, mb: int)
    by (nonlinear_arith)
    requires
        -ma <= a <= ma,
        -mb <= b <= mb,
    ensures
        -(ma * mb) <= a * b <= ma * mb,
{
}

/// The rectangle of screen that a sprite covers, both ends included.
#[derive(Clone, Copy, PartialEq, Eq, Structural, Debug)]
pub struct Billboard {
    pub start_x: i32,
    pub end_x: i32,
    pub start_y: i32,
    pub end_y: i32,
}

/// The larger of two numbers.
pub open spec fn at_least(x: int, lo: int) -> int {
    if x < lo {
        lo
    } else {
        x
    }
}

/// The smaller of two numbers.
pub open spec fn at_most(x: int, hi: int) -> int {
    if x > hi {
        hi
    } else {
        x
    }
}

/// The rectangle with the given edges, if it fits the screen and is at
/// least one column wide and more than one row tall.
pub open spec fn billboard_with(start_x: int, end_x: int, start_y: int, end_y: int) -> Option<
    Billboard,
> {
    if end_x >= start_x && end_y > start_y {
        Some(
            Billboard {
                start_x: start_x as i32,
                end_x: end_x as i32,
                start_y: start_y as i32,
                end_y: end_y as i32,
            },
        )
    } else {
        None
    }
}

/// Billboard of full projected height and equal width, centred on the
/// horizon and on the entity's screen column, cut to the screen.
pub open spec fn full_billboard(p: Projected) -> Option<Billboard> {
    let half = div_trunc(p.height as int, 2);
    let mid = SCREEN_H as int / 2;
    billboard_with(
        at_least(p.screen_x - half, 0),
        at_most(p.screen_x + half, SCREEN_W - 1),
        at_least(mid - half, 0),
        at_most(mid + half, SCREEN_H - 1),
    )
}

/// Side of a billboard scaled to `pct` hundredths of the projected height,
/// no smaller than 2 and no larger than `max_h`.
pub open spec fn scaled_size(height: int, pct: int, max_h: int) -> int {
    clamp(div_trunc(height * pct, 100), 2, max_h)
}

/// Billboard scaled to a fraction of the projected height whose base
/// stands on the floor line of its distance.
pub open spec fn scaled_billboard(p: Projected, pct: int, max_h: int) -> Option<Billboard> {
    let size = scaled_size(p.height as int, pct, max_h);
    let base = at_most(SCREEN_H as int / 2 + div_trunc(p.height as int, 2), SCREEN_H - 1);
    let half = div_trunc(size, 2);
    billboard_with(
        at_least(p.screen_x - half, 0),
        at_most(p.screen_x + half, SCREEN_W - 1),
        at_least(base - size, 0),
        base,
    )
}

fn make_billboard(start_x: i64, end_x: i64, start_y: i64, end_y: i64) -> (b: Option<Billboard>)
    requires
        0 <= start_x,
        end_x < SCREEN_W,
        0 <= start_y,
        end_y < SCREEN_H,
    ensures
        b == billboard_with(start_x as int, end_x as int, start_y as int, end_y as int),
{
    if end_x >= start_x && end_y > start_y {
        Some(
            Billboard {
                start_x: start_x as i32,
                end_x: end_x as i32,
                start_y: start_y as i32,
                end_y: end_y as i32,
            },
        )
    } else {
        None
    }
}

/// Billboard of an enemy: as tall as the projection, and as wide.
pub fn billboard_full(p: &Projected) -> (b: Option<Billboard>)
    ensures
        b == full_billboard(*p),
        b is Some ==> 0 <= b->0.start_x <= b->0.end_x < SCREEN_W && 0 <= b->0.start_y
            < b->0.end_y < SCREEN_H,
{
    let half: i64 = (p.height / 2) as i64;
    let mid: i64 = (SCREEN_H / 2) as i64;
    let sx: i64 = p.screen_x as i64;
    let start_x: i64 = if sx - half < 0 { 0 } else { sx - half };
    let end_x: i64 = if sx + half > SCREEN_W as i64 - 1 { SCREEN_W as i64 - 1 } else { sx + half };
    let start_y: i64 = if mid - half < 0 { 0 } else { mid - half };
    let end_y: i64 = if mid + half > SCREEN_H as i64 - 1 {
        SCREEN_H as i64 - 1
    } else {
        mid + half
    };
    make_billboard(start_x, end_x, start_y, end_y)
}

/// Billboard of a pickup, a decoration or a chest: `pct` hundredths of the
/// projected height, between 2 and `max_h` pixels, standing on the floor.
pub fn billboard_scaled(p: &Projected, pct: i32, max_h: i32) -> (b: Option<Billboard>)
    ensures
        b == scaled_billboard(*p, pct as int, max_h as int),
        b is Some ==> 0 <= b->0.start_x <= b->0.end_x < SCREEN_W && 0 <= b->0.start_y
            < b->0.end_y < SCREEN_H,
{
    let h: i64 = p.height as i64;
    let k: i64 = pct as i64;
    assert(-0x8000_0000 * 0x8000_0000 <= h * k <= 0x8000_0000 * 0x8000_0000) by (nonlinear_arith)
        requires
            -0x8000_0000 <= h <= 0x8000_0000,
            -0x8000_0000 <= k <= 0x8000_0000,
    ;
    let raw: i64 = div_toward_zero(h * k, 100);
    let size: i64 = if raw < 2 {
        2
    } else if raw > max_h as i64 {
        max_h as i64
    } else {
        raw
    };
    let mid: i64 = (SCREEN_H / 2) as i64;
    let floor: i64 = mid + (p.height / 2) as i64;
    let base: i64 = if floor > SCREEN_H as i64 - 1 { SCREEN_H as i64 - 1 } else { floor };
    let half: i64 = size / 2;
    let sx: i64 = p.screen_x as i64;
    let start_x: i64 = if sx - half < 0 { 0 } else { sx - half };
    let end_x: i64 = if sx + half > SCREEN_W as i64 - 1 { SCREEN_W as i64 - 1 } else { sx + half };
    let start_y: i64 = if base - size < 0 { 0 } else { base - size };
    make_billboard(start_x, end_x, start_y, base)
}

/// How a sprite is painted: in one colour, or with a texture.
#[derive(Clone, Copy, Debug)]
pub enum SpriteVisual {
    Color(Color),
    Texture(Texture),
}

/// A sprite that waits to be drawn.
#[derive(Clone, Copy, Debug)]
pub struct QueuedSprite {
    pub start_x: i32,
    pub end_x: i32,
    pub start_y: i32,
    pub end_y: i32,
    /// Distance ahead of the viewer
    pub depth: i64,
    pub visual: SpriteVisual,
    /// Halo drawn under a textured sprite
    pub glow: Option<Color>,
    /// Index of the enemy that this sprite shows, if it shows one that is not dead
    pub enemy_idx: Option<usize>,
}

/// Textures of the pickups; a pickup without one is drawn in its colour.
pub struct PickupTextures {
    pub health_small: Option<Texture>,
    pub health_big: Option<Texture>,
    pub shield_small: Option<Texture>,
    pub shield_big: Option<Texture>,
    pub weapon_pistol: Option<Texture>,
    pub weapon_smg: Option<Texture>,
    pub weapon_rifle: Option<Texture>,
    pub weapon_shotgun: Option<Texture>,
    pub weapon_rocket: Option<Texture>,
    /// One texture for every kind of ammunition
    pub ammo_generic: Option<Texture>,
}

/// Textures of a chest, closed and opened.
pub struct ChestTextures {
    pub closed: Option<Texture>,
    pub opened: Option<Texture>,
}

/// Textures of an enemy: one while it lives, and the frames of its death
/// in order, each shown for `death_frame_time`.
pub struct EnemyTextures {
    pub alive: Option<Texture>,
    pub death_frames: Vec<Texture>,
    pub death_frame_time: i32,
}

/// Shortest time that a frame of the death animation is shown.
pub const MIN_FRAME_TIME: i64 = 7;

// Shares of the projected height, in hundredths, and largest sizes in pixels
pub const PICKUP_SCALE: i32 = 35;
pub const PICKUP_MAX: i32 = 129;
pub const DECO_SCALE_BLOCK: i32 = 70;
pub const DECO_SCALE_PASSABLE: i32 = 55;
pub const DECO_MAX: i32 = 252;
pub const CHEST_SCALE: i32 = 55;
pub const CHEST_MAX: i32 = 216;

/// The halo of a weapon pickup, by rarity.
pub open spec fn spec_rarity_glow(r: Rarity) -> Color {
    match r {
        Rarity::Common => Color::Rgba(180, 180, 180, 110),
        Rarity::Uncommon => Color::Rgba(70, 200, 90, 120),
        Rarity::Rare => Color::Rgba(80, 140, 255, 120),
        Rarity::Epic => Color::Rgba(170, 80, 220, 120),
        Rarity::Legendary => Color::Rgba(240, 200, 60, 130),
    }
}

/// The texture if there is one, else the colour.
pub open spec fn visual_or(tex: Option<Texture>, fallback: Color) -> SpriteVisual {
    match tex {
        Some(t) => SpriteVisual::Texture(t),
        None => SpriteVisual::Color(fallback),
    }
}

/// Frame of the death animation after `elapsed`: one frame per
/// `frame_time`, staying on the last of the `count` frames.
pub open spec fn death_frame(elapsed: int, frame_time: int, count: int) -> int {
    clamp(elapsed / at_least(frame_time, MIN_FRAME_TIME as int), 0, count - 1)
}

/// How an enemy looks, and its halo. A dead enemy shows the frame of its
/// death animation; a living one its texture, or its colour, and flashes
/// yellow for a moment after a shot.
pub open spec fn enemy_look(e: Enemy, tex: &EnemyTextures) -> (SpriteVisual, Option<Color>) {
    if e.state == EnemyState::Dead {
        if tex.death_frames@.len() > 0 {
            (
                SpriteVisual::Texture(
                    tex.death_frames@[death_frame(
                        e.death_anim_t as int,
                        tex.death_frame_time as int,
                        tex.death_frames@.len() as int,
                    )],
                ),
                None,
            )
        } else {
            (SpriteVisual::Color(Color::DarkGray), None)
        }
    } else {
        (
            visual_or(tex.alive, if e.flash_timer > 0 { Color::Yellow } else { e.color }),
            if e.flash_timer > 0 {
                Some(Color::Rgba(255, 255, 0, 140))
            } else {
                None
            },
        )
    }
}

/// Texture of a weapon pickup.
pub open spec fn weapon_texture(w: WeaponType, tex: &PickupTextures) -> Option<Texture> {
    match w {
        WeaponType::Pistol => tex.weapon_pistol,
        WeaponType::SMG => tex.weapon_smg,
        WeaponType::Rifle => tex.weapon_rifle,
        WeaponType::Shotgun => tex.weapon_shotgun,
        WeaponType::RocketLauncher => tex.weapon_rocket,
    }
}

/// How a pickup looks, and its halo: weapons glow in the colour of their rarity.
pub open spec fn pickup_look(p: Pickup, tex: &PickupTextures) -> (SpriteVisual, Option<Color>) {
    match p.kind {
        PickupKind::HealthSmall => (visual_or(tex.health_small, p.color), None),
        PickupKind::HealthBig => (visual_or(tex.health_big, p.color), None),
        PickupKind::ShieldSmall => (visual_or(tex.shield_small, p.color), None),
        PickupKind::ShieldBig => (visual_or(tex.shield_big, p.color), None),
        PickupKind::Weapon { wtype, rarity } => (
            visual_or(weapon_texture(wtype, tex), p.color),
            Some(spec_rarity_glow(rarity)),
        ),
        PickupKind::Ammo { .. } => (visual_or(tex.ammo_generic, p.color), None),
        PickupKind::Item { .. } => (SpriteVisual::Color(p.color), None),
    }
}

/// The sprite with the given billboard, depth and look.
pub open spec fn sprite_with(
    b: Billboard,
    depth: i64,
    look: (SpriteVisual, Option<Color>),
    enemy_idx: Option<usize>,
) -> QueuedSprite {
    QueuedSprite {
        start_x: b.start_x,
        end_x: b.end_x,
        start_y: b.start_y,
        end_y: b.end_y,
        depth,
        visual: look.0,
        glow: look.1,
        enemy_idx,
    }
}

/// The sprite of the enemy with index `idx`, if it is in view. Dead
/// enemies are drawn too, but carry no index.
pub open spec fn enemy_sprite(cam: Camera, e: Enemy, idx: usize, tex: &EnemyTextures) -> Option<
    QueuedSprite,
> {
    match cam.projection(e.x as int, e.y as int) {
        Some(p) => match full_billboard(p) {
            Some(b) => Some(
                sprite_with(
                    b,
                    p.depth,
                    enemy_look(e, tex),
                    if e.state == EnemyState::Dead {
                        None
                    } else {
                        Some(idx)
                    },
                ),
            ),
            None => None,
        },
        None => None,
    }
}

/// The sprite of a pickup, if it is in view and not too near.
pub open spec fn pickup_sprite(cam: Camera, p: Pickup, tex: &PickupTextures) -> Option<
    QueuedSprite,
> {
    match cam.projection(p.x as int, p.y as int) {
        Some(pr) => if pr.depth < PICKUP_NEAR {
            None
        } else {
            match scaled_billboard(pr, PICKUP_SCALE as int, PICKUP_MAX as int) {
                Some(b) => Some(sprite_with(b, pr.depth, pickup_look(p, tex), None)),
                None => None,
            }
        },
        None => None,
    }
}

/// Share of the projected height that a decoration takes.
pub open spec fn deco_scale(kind: DecoKind) -> int {
    match kind {
        DecoKind::Blocking => DECO_SCALE_BLOCK as int,
        DecoKind::Passable => DECO_SCALE_PASSABLE as int,
    }
}

/// Colour in which a decoration is drawn.
pub open spec fn deco_color(kind: DecoKind) -> Color {
    match kind {
        DecoKind::Blocking => Color::Brown,
        DecoKind::Passable => Color::LightGray,
    }
}

/// The sprite of a decoration, if it is in view.
pub open spec fn decoration_sprite(cam: Camera, d: Decoration) -> Option<QueuedSprite> {
    match cam.projection(d.x as int, d.y as int) {
        Some(pr) => match scaled_billboard(pr, deco_scale(d.kind), DECO_MAX as int) {
            Some(b) => Some(
                sprite_with(b, pr.depth, (SpriteVisual::Color(deco_color(d.kind)), None), None),
            ),
            None => None,
        },
        None => None,
    }
}

/// The sprite of a chest, if it is in view.
pub open spec fn chest_sprite(cam: Camera, c: Chest, tex: &ChestTextures) -> Option<QueuedSprite> {
    match cam.projection(c.x as int, c.y as int) {
        Some(pr) => match scaled_billboard(pr, CHEST_SCALE as int, CHEST_MAX as int) {
            Some(b) => Some(
                sprite_with(
                    b,
                    pr.depth,
                    (
                        if c.opened {
                            visual_or(tex.opened, Color::Yellow)
                        } else {
                            visual_or(tex.closed, Color::Gold)
                        },
                        None,
                    ),
                    None,
                ),
            ),
            None => None,
        },
        None => None,
    }
}

/// The halo of a weapon pickup, by rarity.
pub fn rarity_glow(r: Rarity) -> (c: Color)
    ensures
        c == spec_rarity_glow(r),
{
    match r {
        Rarity::Common => Color::Rgba(180, 180, 180, 110),
        Rarity::Uncommon => Color::Rgba(70, 200, 90, 120),
        Rarity::Rare => Color::Rgba(80, 140, 255, 120),
        Rarity::Epic => Color::Rgba(170, 80, 220, 120),
        Rarity::Legendary => Color::Rgba(240, 200, 60, 130),
    }
}

fn pick_visual(tex: Option<Texture>, fallback: Color) -> (v: SpriteVisual)
    ensures
        v == visual_or(tex, fallback),
{
    match tex {
        Some(t) => SpriteVisual::Texture(t),
        None => SpriteVisual::Color(fallback),
    }
}

fn make_sprite(
    b: Billboard,
    depth: i64,
    visual: SpriteVisual,
    glow: Option<Color>,
    enemy_idx: Option<usize>,
) -> (s: QueuedSprite)
    ensures
        s == sprite_with(b, depth, (visual, glow), enemy_idx),
{
    QueuedSprite {
        start_x: b.start_x,
        end_x: b.end_x,
        start_y: b.start_y,
        end_y: b.end_y,
        depth,
        visual,
        glow,
        enemy_idx,
    }
}

/// Chooses how an enemy is painted.
pub fn enemy_visual(e: &Enemy, tex: &EnemyTextures) -> (look: (SpriteVisual, Option<Color>))
    ensures
        look == enemy_look(*e, tex),
{
    match e.state {
        EnemyState::Dead => {
            let count: usize = tex.death_frames.len();
            if count > 0 {
                let ft: i64 = if (tex.death_frame_time as i64) < MIN_FRAME_TIME {
                    MIN_FRAME_TIME
                } else {
                    tex.death_frame_time as i64
                };
                let frame: usize = if e.death_anim_t < 0 {
                    proof {
                        let t = e.death_anim_t as int;
                        assert(t / (ft as int) < 0) by (nonlinear_arith)
                            requires
                                t < 0,
                                ft > 0,
                        ;
                    }
                    0
                } else {
                    let q: i64 = e.death_anim_t / ft;
                    proof {
                        let t = e.death_anim_t as int;
                        assert(t / (ft as int) >= 0) by (nonlinear_arith)
                            requires
                                t >= 0,
                                ft > 0,
                        ;
                    }
                    if q as u64 >= count as u64 {
                        count - 1
                    } else {
                        q as usize
                    }
                };
                (SpriteVisual::Texture(tex.death_frames[frame]), None)
            } else {
                (SpriteVisual::Color(Color::DarkGray), None)
            }
        },
        _ => {
            let flashing: bool = e.flash_timer > 0;
            let visual: SpriteVisual = pick_visual(
                tex.alive,
                if flashing { Color::Yellow } else { e.color },
            );
            let glow: Option<Color> = if flashing {
                Some(Color::Rgba(255, 255, 0, 140))
            } else {
                None
            };
            (visual, glow)
        },
    }
}

/// Chooses how a pickup is painted.
pub fn pickup_visual(p: &Pickup, tex: &PickupTextures) -> (look: (SpriteVisual, Option<Color>))
    ensures
        look == pickup_look(*p, tex),
{
    match p.kind {
        PickupKind::HealthSmall => (pick_visual(tex.health_small, p.color), None),
        PickupKind::HealthBig => (pick_visual(tex.health_big, p.color), None),
        PickupKind::ShieldSmall => (pick_visual(tex.shield_small, p.color), None),
        PickupKind::ShieldBig => (pick_visual(tex.shield_big, p.color), None),
        PickupKind::Weapon { wtype, rarity } => {
            let t: Option<Texture> = match wtype {
                WeaponType::Pistol => tex.weapon_pistol,
                WeaponType::SMG => tex.weapon_smg,
                WeaponType::Rifle => tex.weapon_rifle,
                WeaponType::Shotgun => tex.weapon_shotgun,
                WeaponType::RocketLauncher => tex.weapon_rocket,
            };
            (pick_visual(t, p.color), Some(rarity_glow(rarity)))
        },
        PickupKind::Ammo { .. } => (pick_visual(tex.ammo_generic, p.color), None),
        PickupKind::Item { .. } => (SpriteVisual::Color(p.color), None),
    }
}

/// Projects an enemy and gives its sprite, if it is in view.
pub fn project_enemy(cam: &Camera, e: &Enemy, idx: usize, tex: &EnemyTextures) -> (s: Option<
    QueuedSprite,
>)
    ensures
        s == enemy_sprite(*cam, *e, idx, tex),
{
    match cam.project(e.x, e.y) {
        Some(p) => match billboard_full(&p) {
            Some(b) => {
                let look: (SpriteVisual, Option<Color>) = enemy_visual(e, tex);
                let tag: Option<usize> = match e.state {
                    EnemyState::Dead => None,
                    _ => Some(idx),
                };
                Some(make_sprite(b, p.depth, look.0, look.1, tag))
            },
            None => None,
        },
        None => None,
    }
}

/// Projects a pickup and gives its sprite, if it is in view.
pub fn project_pickup(cam: &Camera, p: &Pickup, tex: &PickupTextures) -> (s: Option<QueuedSprite>)
    ensures
        s == pickup_sprite(*cam, *p, tex),
{
    match cam.project(p.x, p.y) {
        Some(pr) => {
            if pr.depth < PICKUP_NEAR {
                return None;
            }
            match billboard_scaled(&pr, PICKUP_SCALE, PICKUP_MAX) {
                Some(b) => {
                    let look: (SpriteVisual, Option<Color>) = pickup_visual(p, tex);
                    Some(make_sprite(b, pr.depth, look.0, look.1, None))
                },
                None => None,
            }
        },
        None => None,
    }
}

/// Projects a decoration and gives its sprite, if it is in view.
pub fn project_decoration(cam: &Camera, d: &Decoration) -> (s: Option<QueuedSprite>)
    ensures
        s == decoration_sprite(*cam, *d),
{
    match cam.project(d.x, d.y) {
        Some(pr) => {
            let scale: i32 = match d.kind {
                DecoKind::Blocking => DECO_SCALE_BLOCK,
                DecoKind::Passable => DECO_SCALE_PASSABLE,
            };
            let color: Color = match d.kind {
                DecoKind::Blocking => Color::Brown,
                DecoKind::Passable => Color::LightGray,
            };
            match billboard_scaled(&pr, scale, DECO_MAX) {
                Some(b) => Some(make_sprite(b, pr.depth, SpriteVisual::Color(color), None, None)),
                None => None,
            }
        },
        None => None,
    }
}

/// Projects a chest and gives its sprite, if it is in view.
pub fn project_chest(cam: &Camera, c: &Chest, tex: &ChestTextures) -> (s: Option<QueuedSprite>)
    ensures
        s == chest_sprite(*cam, *c, tex),
{
    match cam.project(c.x, c.y) {
        Some(pr) => match billboard_scaled(&pr, CHEST_SCALE, CHEST_MAX) {
            Some(b) => {
                let visual: SpriteVisual = if c.opened {
                    pick_visual(tex.opened, Color::Yellow)
                } else {
                    pick_visual(tex.closed, Color::Gold)
                };
                Some(make_sprite(b, pr.depth, visual, None, None))
            },
            None => None,
        },
        None => None,
    }
}

/// The sprites of the first `n` enemies, in their order.
pub open spec fn enemy_sprites(cam: Camera, enemies: Seq<Enemy>, tex: &EnemyTextures, n: nat) -> Seq<
    QueuedSprite,
>
    decreases n,
{
    if n == 0 {
        Seq::empty()
    } else {
        let before = enemy_sprites(cam, enemies, tex, (n - 1) as nat);
        match enemy_sprite(cam, enemies[n - 1], (n - 1) as usize, tex) {
            Some(s) => before.push(s),
            None => before,
        }
    }
}

/// The sprites of the first `n` pickups.
pub open spec fn pickup_sprites(cam: Camera, pickups: Seq<Pickup>, tex: &PickupTextures, n: nat) -> Seq<
    QueuedSprite,
>
    decreases n,
{
    if n == 0 {
        Seq::empty()
    } else {
        let before = pickup_sprites(cam, pickups, tex, (n - 1) as nat);
        match pickup_sprite(cam, pickups[n - 1], tex) {
            Some(s) => before.push(s),
            None => before,
        }
    }
}

/// The sprites of the first `n` decorations.
pub open spec fn decoration_sprites(cam: Camera, decorations: Seq<Decoration>, n: nat) -> Seq<
    QueuedSprite,
>
    decreases n,
{
    if n == 0 {
        Seq::empty()
    } else {
        let before = decoration_sprites(cam, decorations, (n - 1) as nat);
        match decoration_sprite(cam, decorations[n - 1]) {
            Some(s) => before.push(s),
            None => before,
        }
    }
}

/// The sprites of the first `n` chests.
pub open spec fn chest_sprites(cam: Camera, chests: Seq<Chest>, tex: &ChestTextures, n: nat) -> Seq<
    QueuedSprite,
>
    decreases n,
{
    if n == 0 {
        Seq::empty()
    } else {
        let before = chest_sprites(cam, chests, tex, (n - 1) as nat);
        match chest_sprite(cam, chests[n - 1], tex) {
            Some(s) => before.push(s),
            None => before,
        }
    }
}

/// Every sprite in view: enemies first, then pickups, decorations and chests.
pub open spec fn queued_sprites(
    cam: Camera,
    enemies: Seq<Enemy>,
    pickups: Seq<Pickup>,
    decorations: Seq<Decoration>,
    chests: Seq<Chest>,
    enemy_tex: &EnemyTextures,
    pickup_tex: &PickupTextures,
    chest_tex: &ChestTextures,
) -> Seq<QueuedSprite> {
    enemy_sprites(cam, enemies, enemy_tex, enemies.len()) + pickup_sprites(
        cam,
        pickups,
        pickup_tex,
        pickups.len(),
    ) + decoration_sprites(cam, decorations, decorations.len()) + chest_sprites(
        cam,
        chests,
        chest_tex,
        chests.len(),
    )
}

/// Projects every entity and queues the sprites of those in view.
pub fn queue_sprites(
    cam: &Camera,
    enemies: &[Enemy],
    pickups: &[Pickup],
    decorations: &[Decoration],
    chests: &[Chest],
    enemy_tex: &EnemyTextures,
    pickup_tex: &PickupTextures,
    chest_tex: &ChestTextures,
) -> (queue: Vec<QueuedSprite>)
    ensures
        queue@ == queued_sprites(
            *cam,
            enemies@,
            pickups@,
            decorations@,
            chests@,
            enemy_tex,
            pickup_tex,
            chest_tex,
        ),
{
    let mut queue: Vec<QueuedSprite> = Vec::new();
    let mut i: usize = 0;
    while i < enemies.len()
        invariant
            i <= enemies@.len(),
            queue@ == enemy_sprites(*cam, enemies@, enemy_tex, i as nat),
        decreases enemies@.len() - i,
    {
        match project_enemy(cam, &enemies[i], i, enemy_tex) {
            Some(s) => {
                queue.push(s);
            },
            None => {},
        }
        i = i + 1;
    }
    let ghost first = queue@;
    let mut j: usize = 0;
    while j < pickups.len()
        invariant
            j <= pickups@.len(),
            queue@ == first + pickup_sprites(*cam, pickups@, pickup_tex, j as nat),
        decreases pickups@.len() - j,
    {
        let ghost before = pickup_sprites(*cam, pickups@, pickup_tex, j as nat);
        match project_pickup(cam, &pickups[j], pickup_tex) {
            Some(s) => {
                queue.push(s);
                assert(queue@ =~= first + before.push(s));
            },
            None => {},
        }
        j = j + 1;
    }
    let ghost second = queue@;
    let mut k: usize = 0;
    while k < decorations.len()
        invariant
            k <= decorations@.len(),
            queue@ == second + decoration_sprites(*cam, decorations@, k as nat),
        decreases decorations@.len() - k,
    {
        let ghost before = decoration_sprites(*cam, decorations@, k as nat);
        match project_decoration(cam, &decorations[k]) {
            Some(s) => {
                queue.push(s);
                assert(queue@ =~= second + before.push(s));
            },
            None => {},
        }
        k = k + 1;
    }
    let ghost third = queue@;
    let mut m: usize = 0;
    while m < chests.len()
        invariant
            m <= chests@.len(),
            queue@ == third + chest_sprites(*cam, chests@, chest_tex, m as nat),
        decreases chests@.len() - m,
    {
        let ghost before = chest_sprites(*cam, chests@, chest_tex, m as nat);
        match project_chest(cam, &chests[m], chest_tex) {
            Some(s) => {
                queue.push(s);
                assert(queue@ =~= third + before.push(s));
            },
            None => {},
        }
        m = m + 1;
    }
    queue
}

/// The key by which sprites are ordered: the depth.
pub open spec fn depth_key() -> spec_fn(QueuedSprite) -> int {
    |s: QueuedSprite| s.depth as int
}

/// The first `n` sprites of `queue` ordered from far to near; sprites of
/// equal depth keep the order in which they were queued.
pub open spec fn far_to_near(queue: Seq<QueuedSprite>, n: nat) -> Seq<QueuedSprite> {
    descending(queue, depth_key(), n)
}

/// No sprite comes before one that is farther away.
pub open spec fn ordered_far_first(sprites: Seq<QueuedSprite>) -> bool {
    forall|i: int, j: int| 0 <= i < j < sprites.len() ==> sprites[i].depth >= sprites[j].depth
}

/// Orders the queued sprites from far to near, so that near sprites are
/// drawn over far ones. Sprites at the same depth keep their order.
pub fn sort_sprites(queue: &[QueuedSprite]) -> (sorted: Vec<QueuedSprite>)
    ensures
        sorted@ == far_to_near(queue@, queue@.len()),
        sorted@.len() == queue@.len(),
        sorted@.to_multiset() == queue@.to_multiset(),
        ordered_far_first(sorted@),
{
    let mut sorted: Vec<QueuedSprite> = Vec::new();
    let mut i: usize = 0;
    while i < queue.len()
        invariant
            i <= queue@.len(),
            sorted@ == far_to_near(queue@, i as nat),
            sorted@.len() == i,
        decreases queue@.len() - i,
    {
        let s: QueuedSprite = queue[i];
        let mut pos: usize = sorted.len();
        while pos > 0 && sorted[pos - 1].depth < s.depth
            invariant
                pos <= sorted@.len(),
                forall|k: int| pos <= k < sorted@.len() ==> sorted@[k].depth < s.depth,
            decreases pos,
        {
            pos = pos - 1;
        }
        proof {
            lemma_insert_position_skips(sorted@, depth_key(), s.depth as int, pos as int);
        }
        sorted.insert(pos, s);
        i = i + 1;
    }
    proof {
        lemma_descending_sorts(queue@, depth_key(), queue@.len());
        assert(queue@.take(queue@.len() as int) =~= queue@);
        assert(is_descending(sorted@, depth_key()));
        assert forall|i: int, j: int| 0 <= i < j < sorted@.len() implies sorted@[i].depth
            >= sorted@[j].depth by {
            assert(depth_key()(sorted@[i]) >= depth_key()(sorted@[j]));
        }
    }
    sorted
}

/// One thing to draw in one screen column.
#[derive(Clone, Copy, Debug)]
pub enum DrawCmd {
    /// A vertical line from row `y1` to row `y2`
    Line { x: i32, y1: i32, y2: i32, color: Color },
    /// One column of a texture, `src_x` fixed-point texels from its left
    /// edge, stretched over `height` rows from row `y` down
    Strip { texture: Texture, src_x: i64, x: i32, y: i32, height: i32 },
}

/// Whether a sprite shows in column `x`: only where it is strictly nearer
/// than the wall of that column.
pub open spec fn column_visible(s: QueuedSprite, zbuffer: Seq<i64>, x: int) -> bool {
    0 <= x < zbuffer.len() && s.depth < zbuffer[x]
}

/// Texture column that screen column `x` of a sprite shows: the columns of
/// the texture are spread evenly over the sprite's width.
pub open spec fn texture_offset(s: QueuedSprite, tex_w: int, x: int) -> int {
    let width = at_least(s.end_x - s.start_x + 1, 1);
    clamp(
        at_most(
            at_least(div_trunc((x - s.start_x) * (tex_w - 1) * 65536, width), 0),
            (tex_w - 1) * 65536,
        ),
        i64::MIN as int,
        i64::MAX as int,
    )
}

/// The halo of a sprite in column `x`: two rows taller at each end.
pub open spec fn glow_line(s: QueuedSprite, g: Color, x: int) -> DrawCmd {
    DrawCmd::Line {
        x: x as i32,
        y1: at_least(s.start_y - 2, 0) as i32,
        y2: at_most(s.end_y + 2, SCREEN_H - 1) as i32,
        color: g,
    }
}

/// What a sprite draws in column `x`: nothing where a wall is as near or
/// nearer; else a line in its colour, or its halo and a texture column.
pub open spec fn column_cmds(s: QueuedSprite, zbuffer: Seq<i64>, x: int) -> Seq<DrawCmd> {
    if !column_visible(s, zbuffer, x) {
        Seq::empty()
    } else {
        match s.visual {
            SpriteVisual::Color(c) => seq![
                DrawCmd::Line { x: x as i32, y1: s.start_y, y2: s.end_y, color: c },
            ],
            SpriteVisual::Texture(t) => {
                let strip = DrawCmd::Strip {
                    texture: t,
                    src_x: texture_offset(s, t.width as int, x) as i64,
                    x: x as i32,
                    y: s.start_y,
                    height: clamp(s.end_y - s.start_y + 1, i32::MIN as int, i32::MAX as int) as i32,
                };
                match s.glow {
                    Some(g) => seq![glow_line(s, g, x), strip],
                    None => seq![strip],
                }
            },
        }
    }
}

/// Number of screen columns that a sprite covers.
pub open spec fn sprite_width(s: QueuedSprite) -> nat {
    at_least(s.end_x - s.start_x + 1, 0) as nat
}

/// What a sprite draws in its first `n` columns, from left to right.
pub open spec fn sprite_cmds(s: QueuedSprite, zbuffer: Seq<i64>, n: nat) -> Seq<DrawCmd>
    decreases n,
{
    if n == 0 {
        Seq::empty()
    } else {
        sprite_cmds(s, zbuffer, (n - 1) as nat) + column_cmds(s, zbuffer, s.start_x + n - 1)
    }
}

/// What the first `n` sprites draw, one sprite after the other.
pub open spec fn display_list(sprites: Seq<QueuedSprite>, zbuffer: Seq<i64>, n: nat) -> Seq<DrawCmd>
    decreases n,
{
    if n == 0 {
        Seq::empty()
    } else {
        display_list(sprites, zbuffer, (n - 1) as nat) + sprite_cmds(
            sprites[n - 1],
            zbuffer,
            sprite_width(sprites[n - 1]),
        )
    }
}

/// The range of screen columns of a sprite that shows the enemy `idx`.
pub open spec fn range_of(s: QueuedSprite, idx: usize) -> DrawnSprite {
    DrawnSprite { start_x: s.start_x, end_x: s.end_x, depth: s.depth, idx }
}

/// The ranges of those of the first `n` sprites that show an enemy which
/// is not dead, whether or not a wall hides them.
pub open spec fn visible_ranges(sprites: Seq<QueuedSprite>, n: nat) -> Seq<DrawnSprite>
    decreases n,
{
    if n == 0 {
        Seq::empty()
    } else {
        let before = visible_ranges(sprites, (n - 1) as nat);
        match sprites[n - 1].enemy_idx {
            Some(idx) => before.push(range_of(sprites[n - 1], idx)),
            None => before,
        }
    }
}

/// A sprite draws nothing in a column whose wall is as near as the sprite
/// or nearer.
pub proof fn lemma_occluded_column_is_empty(s: QueuedSprite, zbuffer: Seq<i64>, x: int)
    requires
        0 <= x < zbuffer.len(),
        s.depth >= zbuffer[x],
    ensures
        column_cmds(s, zbuffer, x).len() == 0,
{
}

/// Every sprite of an enemy that is not dead has its range among the
/// visible ranges, whatever the depth buffer holds.
pub proof fn lemma_enemy_range_is_listed(sprites: Seq<QueuedSprite>, n: nat, i: int)
    requires
        0 <= i < n <= sprites.len(),
        sprites[i].enemy_idx is Some,
    ensures
        visible_ranges(sprites, n).contains(range_of(sprites[i], sprites[i].enemy_idx->0)),
    decreases n,
{
    let r = range_of(sprites[i], sprites[i].enemy_idx->0);
    let before = visible_ranges(sprites, (n - 1) as nat);
    if i == n - 1 {
        assert(before.push(r).last() == r);
    } else {
        lemma_enemy_range_is_listed(sprites, (n - 1) as nat, i);
        let k = choose|k: int| 0 <= k < before.len() && before[k] == r;
        match sprites[n - 1].enemy_idx {
            Some(idx) => {
                assert(before.push(range_of(sprites[n - 1], idx))[k] == r);
            },
            None => {},
        }
    }
}

/// What a sprite draws in column `x`.
pub fn draw_column(s: &QueuedSprite, zbuffer: &[i64], x: i32, out: &mut Vec<DrawCmd>)
    ensures
        final(out)@ == old(out)@ + column_cmds(*s, zbuffer@, x as int),
{
    if x < 0 || x as usize >= zbuffer.len() || !(s.depth < zbuffer[x as usize]) {
        assert(out@ =~= out@ + Seq::<DrawCmd>::empty());
        return ;
    }
    let ghost before = out@;
    match s.visual {
        SpriteVisual::Color(c) => {
            out.push(DrawCmd::Line { x, y1: s.start_y, y2: s.end_y, color: c });
            assert(out@ =~= before + column_cmds(*s, zbuffer@, x as int));
        },
        SpriteVisual::Texture(t) => {
            match s.glow {
                Some(g) => {
                    let top: i64 = s.start_y as i64 - 2;
                    let bottom: i64 = s.end_y as i64 + 2;
                    let y1: i64 = if top < 0 { 0 } else { top };
                    let y2: i64 = if bottom > SCREEN_H as i64 - 1 {
                        SCREEN_H as i64 - 1
                    } else {
                        bottom
                    };
                    out.push(DrawCmd::Line { x, y1: y1 as i32, y2: y2 as i32, color: g });
                },
                None => {},
            }
            let span: i64 = s.end_x as i64 - s.start_x as i64 + 1;
            let width: i64 = if span < 1 { 1 } else { span };
            let step: i64 = x as i64 - s.start_x as i64;
            let last: i64 = t.width as i64 - 1;
            let scaled: i128 = mul_wide(step, last);
            proof {
                lemma_product_bound(step as int, last as int, 0x1_0000_0000, 0x1_0000_0000);
            }
            let q: i128 = div_toward_zero_wide(scaled * 65536, width as i128);
            let low: i128 = if q < 0 { 0 } else { q };
            let high: i128 = if low > last as i128 * 65536 { last as i128 * 65536 } else { low };
            let src_x: i64 = clamp_to_i64(high);
            let height: i32 = clamp_to_i32(s.end_y as i64 - s.start_y as i64 + 1);
            out.push(DrawCmd::Strip { texture: t, src_x, x, y: s.start_y, height });
            assert(out@ =~= before + column_cmds(*s, zbuffer@, x as int));
        },
    }
}

/// Draws the sprites in the order given, each column by column, and lists
/// the screen ranges of the enemies that are not dead. A caller that wants
/// near sprites over far ones passes them ordered from far to near.
pub fn composite(sprites: &[QueuedSprite], zbuffer: &[i64]) -> (out: (
    Vec<DrawCmd>,
    Vec<DrawnSprite>,
))
    ensures
        out.0@ == display_list(sprites@, zbuffer@, sprites@.len()),
        out.1@ == visible_ranges(sprites@, sprites@.len()),
        forall|i: int|
            0 <= i < sprites@.len() && (#[trigger] sprites@[i]).enemy_idx is Some
                ==> out.1@.contains(range_of(sprites@[i], sprites@[i].enemy_idx->0)),
{
    let mut cmds: Vec<DrawCmd> = Vec::new();
    let mut i: usize = 0;
    while i < sprites.len()
        invariant
            i <= sprites@.len(),
            cmds@ == display_list(sprites@, zbuffer@, i as nat),
        decreases sprites@.len() - i,
    {
        let s: QueuedSprite = sprites[i];
        let ghost before = cmds@;
        let span: i64 = s.end_x as i64 - s.start_x as i64 + 1;
        let width: i64 = if span < 0 { 0 } else { span };
        let mut n: i64 = 0;
        while n < width
            invariant
                0 <= n <= width,
                width == sprite_width(s),
                width == 0 || width == s.end_x - s.start_x + 1,
                cmds@ == before + sprite_cmds(s, zbuffer@, n as nat),
            decreases width - n,
        {
            let ghost so_far = sprite_cmds(s, zbuffer@, n as nat);
            let x: i64 = s.start_x as i64 + n;
            draw_column(&s, zbuffer, x as i32, &mut cmds);
            n = n + 1;
            assert(cmds@ =~= before + (so_far + column_cmds(s, zbuffer@, x as int)));
        }
        i = i + 1;
    }
    let mut drawn: Vec<DrawnSprite> = Vec::new();
    let mut j: usize = 0;
    while j < sprites.len()
        invariant
            j <= sprites@.len(),
            drawn@ == visible_ranges(sprites@, j as nat),
        decreases sprites@.len() - j,
    {
        let s: QueuedSprite = sprites[j];
        match s.enemy_idx {
            Some(idx) => {
                drawn.push(
                    DrawnSprite { start_x: s.start_x, end_x: s.end_x, depth: s.depth, idx },
                );
            },
            None => {},
        }
        j = j + 1;
    }
    proof {
        assert forall|i: int|
            0 <= i < sprites@.len() && (#[trigger] sprites@[i]).enemy_idx is Some implies drawn@.contains(
            range_of(sprites@[i], sprites@[i].enemy_idx->0),
        ) by {
            lemma_enemy_range_is_listed(sprites@, sprites@.len(), i);
        }
    }
    (cmds, drawn)
}

} // verus!
