//! Layout of the overlay: where the minimap sits, how far a bar is
//! filled, what the clock shows.

use vstd::prelude::*;
use crate::consts::SCREEN_W;
use crate::fixed::{clamp, clamp_to_i32, div_trunc};
use crate::types::{Color, ConsumableType, Item, Rarity, WeaponType};

verus! {

/// The map in the corner of the screen, small or expanded.
pub struct Minimap {
    pub expanded: bool,
    /// Width and height while small
    pub small_size: (i32, i32),
    /// Width and height while expanded
    pub large_size: (i32, i32),
    /// Distance from the edges of the screen
    pub margin: i32,
}

impl Minimap {
    /// Size of the minimap in pixels in its present state.
    pub open spec fn size(&self) -> (i32, i32) {
        if self.expanded {
            self.large_size
        } else {
            self.small_size
        }
    }

    /// A small minimap, 180 by 140 pixels, that expands to 420 by 320,
    /// ten pixels from the edges.
    pub fn new() -> (m: Minimap)
        ensures
            m == (Minimap {
                expanded: false,
                small_size: (180i32, 140i32),
                large_size: (420i32, 320i32),
                margin: 10,
            }),
    {
        Minimap { expanded: false, small_size: (180, 140), large_size: (420, 320), margin: 10 }
    }

    /// Expands or shrinks the minimap when its key was pressed.
    pub fn handle_input(&mut self, toggle_pressed: bool)
        ensures
            *final(self) == (Minimap {
                expanded: old(self).expanded != toggle_pressed,
                ..*old(self)
            }),
    {
        if toggle_pressed {
            self.expanded = !self.expanded;
        }
    }

    /// The rectangle of the minimap, as left, top, width and height: in
    /// the upper right corner, the margin away from the edges.
    pub fn bounds(&self) -> (r: (i32, i32, i32, i32))
        ensures
            r.0 == clamp(
                SCREEN_W - self.margin - self.size().0,
                i32::MIN as int,
                i32::MAX as int,
            ),
            r.1 == self.margin,
            r.2 == self.size().0,
            r.3 == self.size().1,
    {
        let (mw, mh) = if self.expanded { self.large_size } else { self.small_size };
        let left: i64 = SCREEN_W as i64 - self.margin as i64 - mw as i64;
        (clamp_to_i32(left), self.margin, mw, mh)
    }
}

/// Minutes and seconds of a time; a negative time counts as zero.
pub open spec fn spec_clock(secs: int) -> (u64, u32) {
    if secs < 0 {
        (0, 0)
    } else {
        (((secs / 65536) / 60) as u64, ((secs / 65536) % 60) as u32)
    }
}

/// Minutes and seconds that the clock shows for a time.
pub fn clock(secs: i64) -> (r: (u64, u32))
    ensures
        r == spec_clock(secs as int),
        r.1 < 60,
{
    if secs < 0 {
        return (0, 0);
    }
    let total: u64 = (secs / 65536) as u64;
    (total / 60, (total % 60) as u32)
}

/// Width of the filled part of a bar `w` wide that shows `value` of
/// `max_value`.
pub open spec fn spec_bar_fill(w: int, value: int, max_value: int) -> int {
    if max_value <= 0 || w <= 0 {
        0
    } else {
        div_trunc(w * clamp(value, 0, max_value), max_value)
    }
}

/// Width of the filled part of a bar.
pub fn bar_fill(w: i32, value: i32, max_value: i32) -> (fill: i32)
    ensures
        fill == spec_bar_fill(w as int, value as int, max_value as int),
        0 <= fill,
        fill <= w || w < 0,
{
    if max_value <= 0 || w <= 0 {
        return 0;
    }
    let v: i64 = if value < 0 {
        0
    } else if value > max_value {
        max_value as i64
    } else {
        value as i64
    };
    let wide: i64 = w as i64;
    let m: i64 = max_value as i64;
    assert(0 <= wide * v <= wide * m && wide * m <= 0x8000_0000 * 0x8000_0000) by (nonlinear_arith)
        requires
            0 <= v <= m,
            0 < wide <= 0x8000_0000,
            m <= 0x8000_0000,
    ;
    let q: i64 = (wide * v) / m;
    assert(q <= wide) by (nonlinear_arith)
        requires
            q == (wide * v) / (m as int),
            0 <= wide * v <= wide * m,
            m > 0,
    ;
    assert(q >= 0) by (nonlinear_arith)
        requires
            q == (wide * v) / (m as int),
            0 <= wide * v,
            m > 0,
    ;
    q as i32
}

/// Background of a weapon's slot, by rarity.
pub fn rarity_bg(r: Rarity) -> (c: Color)
    ensures
        c == match r {
            Rarity::Common => Color::Rgba(120, 120, 120, 220),
            Rarity::Uncommon => Color::Rgba(55, 180, 70, 220),
            Rarity::Rare => Color::Rgba(70, 120, 210, 220),
            Rarity::Epic => Color::Rgba(140, 70, 180, 220),
            Rarity::Legendary => Color::Rgba(210, 170, 60, 220),
        },
{
    match r {
        Rarity::Common => Color::Rgba(120, 120, 120, 220),
        Rarity::Uncommon => Color::Rgba(55, 180, 70, 220),
        Rarity::Rare => Color::Rgba(70, 120, 210, 220),
        Rarity::Epic => Color::Rgba(140, 70, 180, 220),
        Rarity::Legendary => Color::Rgba(210, 170, 60, 220),
    }
}

/// Background of a consumable's slot: green for health, blue for shield.
pub fn consumable_bg(c: ConsumableType) -> (col: Color)
    ensures
        col == match c {
            ConsumableType::HealthSmall | ConsumableType::HealthBig => Color::Rgba(
                120,
                210,
                120,
                220,
            ),
            ConsumableType::ShieldSmall | ConsumableType::ShieldBig => Color::Rgba(
                120,
                180,
                230,
                220,
            ),
        },
{
    match c {
        ConsumableType::HealthSmall | ConsumableType::HealthBig => Color::Rgba(120, 210, 120, 220),
        ConsumableType::ShieldSmall | ConsumableType::ShieldBig => Color::Rgba(120, 180, 230, 220),
    }
}

/// The short label of an item in its slot.
pub fn slot_short_text(item: &Item) -> (r: (&'static str, Color))
    ensures
        r.1 == Color::White,
        r.0@ == match *item {
            Item::Weapon(w, _) => match w.wtype {
                WeaponType::Pistol => "PST"@,
                WeaponType::SMG => "SMG"@,
                WeaponType::Rifle => "RFL"@,
                WeaponType::Shotgun => "ESC"@,
                WeaponType::RocketLauncher => "RKT"@,
            },
            Item::Consumable(c) => match c {
                ConsumableType::HealthSmall => "HP+20"@,
                ConsumableType::HealthBig => "HP+100"@,
                ConsumableType::ShieldSmall => "SH+25"@,
                ConsumableType::ShieldBig => "SH+50"@,
            },
        },
{
    match item {
        Item::Weapon(w, _) => {
            let t: &'static str = match w.wtype {
                WeaponType::Pistol => "PST",
                WeaponType::SMG => "SMG",
                WeaponType::Rifle => "RFL",
                WeaponType::Shotgun => "ESC",
                WeaponType::RocketLauncher => "RKT",
            };
            (t, Color::White)
        },
        Item::Consumable(c) => {
            let t: &'static str = match c {
                ConsumableType::HealthSmall => "HP+20",
                ConsumableType::HealthBig => "HP+100",
                ConsumableType::ShieldSmall => "SH+25",
                ConsumableType::ShieldBig => "SH+50",
            };
            (t, Color::White)
        },
    }
}

/// Colours of the ring that shows a health item in use: arc and background.
pub fn cooldown_colors_for_health() -> (r: (Color, Color))
    ensures
        r == (Color::Rgba(77, 209, 72, 255), Color::Rgba(10, 40, 15, 210)),
{
    (Color::Rgba(77, 209, 72, 255), Color::Rgba(10, 40, 15, 210))
}

/// Colours of the ring that shows a shield item in use: arc and background.
pub fn cooldown_colors_for_shield() -> (r: (Color, Color))
    ensures
        r == (Color::Rgba(61, 153, 255, 255), Color::Rgba(10, 25, 40, 210)),
{
    (Color::Rgba(61, 153, 255, 255), Color::Rgba(10, 25, 40, 210))
}

} // verus!
