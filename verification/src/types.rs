//! The game's plain data: weapons, enemies, pickups, the player.

use vstd::prelude::*;
use crate::fixed::{clamp, div_trunc, clamp_to_i32, div_toward_zero};

verus! {

/// A named colour of the palette, or explicit red, green, blue and alpha.
#[derive(Clone, Copy, PartialEq, Eq, Structural, Debug)]
pub enum Color {
    LightGray,
    Gray,
    DarkGray,
    Yellow,
    Gold,
    Orange,
    Pink,
    Red,
    Lime,
    SkyBlue,
    Blue,
    Purple,
    DarkPurple,
    Brown,
    White,
    Rgba(u8, u8, u8, u8),
}

#[derive(Clone, Copy, PartialEq, Eq, Structural, Debug)]
pub enum EnemyState {
    Idle,
    Chase,
    Dead,
}

#[derive(Clone, Copy, PartialEq, Eq, Structural, Hash, Debug)]
pub enum AmmoType {
    Light,
    Medium,
    Heavy,
    Shell,
    Rocket,
}

impl AmmoType {
    pub const COUNT: usize = 5;

    /// Position of this kind in the player's ammunition reserve.
    pub open spec fn spec_index(self) -> int {
        match self {
            AmmoType::Light => 0,
            AmmoType::Medium => 1,
            AmmoType::Heavy => 2,
            AmmoType::Shell => 3,
            AmmoType::Rocket => 4,
        }
    }

    pub fn index(self) -> (i: usize)
        ensures
            i == self.spec_index(),
            i < 5,
    {
        match self {
            AmmoType::Light => 0,
            AmmoType::Medium => 1,
            AmmoType::Heavy => 2,
            AmmoType::Shell => 3,
            AmmoType::Rocket => 4,
        }
    }

    pub fn name(self) -> (s: &'static str)
        ensures
            s@ == match self {
                AmmoType::Light => "Ligeras"@,
                AmmoType::Medium => "Medianas"@,
                AmmoType::Heavy => "Pesadas"@,
                AmmoType::Shell => "Cartuchos"@,
                AmmoType::Rocket => "Cohetes"@,
            },
    {
        match self {
            AmmoType::Light => "Ligeras",
            AmmoType::Medium => "Medianas",
            AmmoType::Heavy => "Pesadas",
            AmmoType::Shell => "Cartuchos",
            AmmoType::Rocket => "Cohetes",
        }
    }
}

#[derive(Clone, Copy, PartialEq, Eq, Structural, Hash, Debug)]
pub enum Rarity {
    Common,
    Uncommon,
    Rare,
    Epic,
    Legendary,
}

impl Rarity {
    /// Damage multiplier in hundredths.
    pub open spec fn spec_damage_mult(self) -> int {
        match self {
            Rarity::Common => 100,
            Rarity::Uncommon => 110,
            Rarity::Rare => 122,
            Rarity::Epic => 136,
            Rarity::Legendary => 152,
        }
    }

    /// Reload-time multiplier in hundredths: the rarer, the faster.
    pub open spec fn spec_reload_mult(self) -> int {
        match self {
            Rarity::Common => 100,
            Rarity::Uncommon => 95,
            Rarity::Rare => 88,
            Rarity::Epic => 80,
            Rarity::Legendary => 70,
        }
    }

    pub open spec fn spec_color(self) -> Color {
        match self {
            Rarity::Common => Color::LightGray,
            Rarity::Uncommon => Color::Lime,
            Rarity::Rare => Color::Blue,
            Rarity::Epic => Color::Purple,
            Rarity::Legendary => Color::Gold,
        }
    }

    pub fn damage_mult(self) -> (m: i32)
        ensures
            m == self.spec_damage_mult(),
    {
        match self {
            Rarity::Common => 100,
            Rarity::Uncommon => 110,
            Rarity::Rare => 122,
            Rarity::Epic => 136,
            Rarity::Legendary => 152,
        }
    }

    pub fn reload_mult(self) -> (m: i32)
        ensures
            m == self.spec_reload_mult(),
    {
        match self {
            Rarity::Common => 100,
            Rarity::Uncommon => 95,
            Rarity::Rare => 88,
            Rarity::Epic => 80,
            Rarity::Legendary => 70,
        }
    }

    pub fn color(self) -> (c: Color)
        ensures
            c == self.spec_color(),
    {
        match self {
            Rarity::Common => Color::LightGray,
            Rarity::Uncommon => Color::Lime,
            Rarity::Rare => Color::Blue,
            Rarity::Epic => Color::Purple,
            Rarity::Legendary => Color::Gold,
        }
    }

    pub fn name(self) -> (s: &'static str)
        ensures
            s@ == match self {
                Rarity::Common => "Común"@,
                Rarity::Uncommon => "Poco común"@,
                Rarity::Rare => "Rara"@,
                Rarity::Epic => "Épica"@,
                Rarity::Legendary => "Legendaria"@,
            },
    {
        match self {
            Rarity::Common => "Común",
            Rarity::Uncommon => "Poco común",
            Rarity::Rare => "Rara",
            Rarity::Epic => "Épica",
            Rarity::Legendary => "Legendaria",
        }
    }
}

#[derive(Clone, Copy, PartialEq, Eq, Structural, Hash, Debug)]
pub enum WeaponType {
    Pistol,
    SMG,
    Rifle,
    Shotgun,
    RocketLauncher,
}

impl WeaponType {
    pub fn name(self) -> (s: &'static str)
        ensures
            s@ == match self {
                WeaponType::Pistol => "Pistola"@,
                WeaponType::SMG => "SMG"@,
                WeaponType::Rifle => "Rifle"@,
                WeaponType::Shotgun => "Escopeta"@,
                WeaponType::RocketLauncher => "Lanzacohetes"@,
            },
    {
        match self {
            WeaponType::Pistol => "Pistola",
            WeaponType::SMG => "SMG",
            WeaponType::Rifle => "Rifle",
            WeaponType::Shotgun => "Escopeta",
            WeaponType::RocketLauncher => "Lanzacohetes",
        }
    }
}

/// `n / 100` rounded to the nearest integer, halves away from zero.
pub open spec fn round_hundredths(n: int) -> int {
    if n >= 0 {
        (n + 50) / 100
    } else {
        -((-n + 50) / 100)
    }
}

#[derive(Clone, Copy)]
pub struct Weapon {
    pub wtype: WeaponType,
    /// Name shown to the player
    pub name: &'static str,
    /// Base damage of one hit
    pub damage: i32,
    /// Time between two shots
    pub fire_interval: i32,
    pub mag_size: i32,
    /// Base reload time
    pub reload_time: i32,
    pub ammo_type: AmmoType,
    pub rarity: Rarity,
}

impl Weapon {
    /// Base damage scaled by the rarity's multiplier and rounded to the nearest integer.
    pub open spec fn spec_effective_damage(&self) -> int {
        clamp(
            round_hundredths(self.damage * self.rarity.spec_damage_mult()),
            i32::MIN as int,
            i32::MAX as int,
        )
    }

    /// Base reload time scaled by the rarity's multiplier.
    pub open spec fn spec_effective_reload(&self) -> int {
        div_trunc(self.reload_time * self.rarity.spec_reload_mult(), 100)
    }

    pub fn effective_damage(&self) -> (d: i32)
        ensures
            d == self.spec_effective_damage(),
    {
        let m: i64 = self.rarity.damage_mult() as i64;
        let d: i64 = self.damage as i64;
        assert(-0x8000_0000 * 152 <= d * m <= 0x8000_0000 * 152) by (nonlinear_arith)
            requires
                -0x8000_0000 <= d < 0x8000_0000,
                100 <= m <= 152,
        ;
        let n: i64 = d * m;
        let r: i64 = if n >= 0 {
            (n + 50) / 100
        } else {
            -((-n + 50) / 100)
        };
        clamp_to_i32(r)
    }

    pub fn effective_reload(&self) -> (t: i32)
        ensures
            t == self.spec_effective_reload(),
    {
        let m: i64 = self.rarity.reload_mult() as i64;
        let t: i64 = self.reload_time as i64;
        assert(-0x8000_0000 * 100 <= t * m <= 0x8000_0000 * 100) by (nonlinear_arith)
            requires
                -0x8000_0000 <= t < 0x8000_0000,
                70 <= m <= 100,
        ;
        let q: i64 = div_toward_zero(t * m, 100);
        q as i32
    }
}

#[derive(Clone, Copy)]
pub struct Enemy {
    pub x: i32,
    pub y: i32,
    pub hp: i32,
    /// Cells per second
    pub speed: i32,
    pub state: EnemyState,
    pub color: Color,
    pub weapon: Weapon,
    /// Time until the weapon may fire again
    pub weapon_cd: i32,
    /// Time for which the enemy still shows a flash
    pub flash_timer: i32,
    /// Time since the death animation began
    pub death_anim_t: i64,
}

impl Enemy {
    pub open spec fn spec_is_alive(&self) -> bool {
        self.state != EnemyState::Dead && self.hp > 0
    }

    pub fn is_alive(&self) -> (b: bool)
        ensures
            b == self.spec_is_alive(),
    {
        self.state != EnemyState::Dead && self.hp > 0
    }
}

#[derive(Clone, Copy)]
pub enum PickupKind {
    HealthSmall,
    HealthBig,
    ShieldSmall,
    ShieldBig,
    Ammo { ammo: AmmoType, amount: i32 },
    Weapon { wtype: WeaponType, rarity: Rarity },
    /// An exact item, weapon or consumable, with a count
    Item { item: Item, count: i32 },
}

pub struct Pickup {
    pub x: i32,
    pub y: i32,
    pub kind: PickupKind,
    pub radius: i32,
    pub color: Color,
    /// Time for which a fresh pickup cannot be collected
    pub spawn_lock: i32,
}

pub struct Player {
    pub x: i32,
    pub y: i32,
    /// Facing angle in radians
    pub angle: i32,
    pub hp: i32,
    pub shield: i32,
    /// Spare rounds of each ammunition kind
    pub ammo_reserve: [i32; 5],
    /// Five slots that hold weapons or consumables
    pub slots: [Option<SlotItem>; 5],
    pub selected: Option<usize>,
    pub punch_cd: i32,
}

/// The screen columns that a living enemy covers, and how far away it is.
#[derive(Clone, Copy)]
pub struct DrawnSprite {
    pub start_x: i32,
    pub end_x: i32,
    pub depth: i64,
    pub idx: usize,
}

#[derive(Clone, Copy)]
pub enum DecoKind {
    Blocking,
    /// Can be walked through
    Passable,
}

pub struct Decoration {
    pub x: i32,
    pub y: i32,
    pub radius: i32,
    pub color: Color,
    pub kind: DecoKind,
}

impl Decoration {
    pub open spec fn spec_is_blocking(&self) -> bool {
        self.kind is Blocking
    }

    pub fn is_blocking(&self) -> (b: bool)
        ensures
            b == self.spec_is_blocking(),
    {
        match self.kind {
            DecoKind::Blocking => true,
            DecoKind::Passable => false,
        }
    }
}

pub struct Chest {
    pub x: i32,
    pub y: i32,
    pub radius: i32,
    pub opened: bool,
    pub color_closed: Color,
    pub color_opened: Color,
}

impl Chest {
    pub fn is_blocking(&self) -> (b: bool)
        ensures
            b,
    {
        true
    }
}

#[derive(Clone, Copy, PartialEq, Eq, Structural, Debug)]
pub enum ConsumableType {
    HealthSmall,
    HealthBig,
    ShieldSmall,
    ShieldBig,
}

impl ConsumableType {
    pub fn name(self) -> (s: &'static str)
        ensures
            s@ == match self {
                ConsumableType::HealthSmall => "Vida menor"@,
                ConsumableType::HealthBig => "Vida mayor"@,
                ConsumableType::ShieldSmall => "Escudo menor"@,
                ConsumableType::ShieldBig => "Escudo mayor"@,
            },
    {
        match self {
            ConsumableType::HealthSmall => "Vida menor",
            ConsumableType::HealthBig => "Vida mayor",
            ConsumableType::ShieldSmall => "Escudo menor",
            ConsumableType::ShieldBig => "Escudo mayor",
        }
    }
}

/// Running state of a weapon that sits in a slot.
#[derive(Clone, Copy)]
pub struct WeaponState {
    pub ammo_in_mag: i32,
    pub weapon_cd: i32,
    pub reloading: bool,
    pub reload_cd: i32,
}

/// What a slot can hold.
#[derive(Clone, Copy)]
pub enum Item {
    Weapon(Weapon, WeaponState),
    Consumable(ConsumableType),
}

#[derive(Clone, Copy)]
pub struct SlotItem {
    pub item: Item,
    /// 1 for a weapon, the stack's size for a consumable
    pub count: i32,
    /// Time left until the consumable in use takes effect
    pub cd: i32,
    pub using: bool,
}

} // verus!
