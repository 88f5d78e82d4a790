//! Screen size and gameplay constants. Durations and distances are in
//! fixed-point steps (65536 to the second or to the cell); chances are
//! in hundredths.

use vstd::prelude::*;

verus! {

pub const SCREEN_W: i32 = 1280;
pub const SCREEN_H: i32 = 720;

pub const PLAYER_MAX_HP: i32 = 100;
pub const PLAYER_MAX_SHIELD: i32 = 100;

pub const SMALL_HEALTH_CAP: i32 = 75;
pub const SMALL_SHIELD_CAP: i32 = 50;

// Rounds granted by one ammunition pickup
pub const AMMO_LIGHT_PACK: i32 = 30;
pub const AMMO_MEDIUM_PACK: i32 = 20;
pub const AMMO_HEAVY_PACK: i32 = 10;
pub const AMMO_SHELL_PACK: i32 = 8;
pub const AMMO_ROCKET_PACK: i32 = 2;

// Largest stack of each consumable in one slot
pub const MAX_STACK_HEALTH_SMALL: i32 = 15;
pub const MAX_STACK_HEALTH_BIG: i32 = 3;
pub const MAX_STACK_SHIELD_SMALL: i32 = 6;
pub const MAX_STACK_SHIELD_BIG: i32 = 3;

// Time it takes to use each consumable: 2.5 s, 10 s, 2.5 s, 3.5 s
pub const CD_HEALTH_SMALL: i32 = 163840;
pub const CD_HEALTH_BIG: i32 = 655360;
pub const CD_SHIELD_SMALL: i32 = 163840;
pub const CD_SHIELD_BIG: i32 = 229376;

// Chances at a random health spawn; they add up to 100
pub const P_HEALTH_NONE: u32 = 40;
pub const P_HEALTH_SMALL: u32 = 40;
pub const P_HEALTH_BIG: u32 = 20;

// Chances at a random shield spawn
pub const P_SHIELD_NONE: u32 = 40;
pub const P_SHIELD_SMALL: u32 = 40;
pub const P_SHIELD_BIG: u32 = 20;

// Chance that a random weapon spawn stays empty
pub const P_WEAPON_NONE: u32 = 40;

// How rarities are distributed; they add up to 100
pub const P_RARITY_COMMON: u32 = 45;
pub const P_RARITY_UNCOMMON: u32 = 25;
pub const P_RARITY_RARE: u32 = 18;
pub const P_RARITY_EPIC: u32 = 9;
pub const P_RARITY_LEGENDARY: u32 = 3;

// Bare-handed attack: damage, reach of 1.4 cells, 0.6 s between blows
pub const PUNCH_DAMAGE: i32 = 25;
pub const PUNCH_RANGE: i64 = 91750;
pub const PUNCH_COOLDOWN: i32 = 39322;

// Chances at a random ammunition spawn
pub const P_AMMO_NONE: u32 = 35;
pub const P_AMMO_LIGHT: u32 = 20;
pub const P_AMMO_MED: u32 = 18;
pub const P_AMMO_HEAVY: u32 = 12;
pub const P_AMMO_SHELL: u32 = 10;
pub const P_AMMO_ROCKET: u32 = 5;

} // verus!
