//! A grid world seen through a ray caster: walls and sprites projected
//! column by column, line of sight, enemy behaviour and hit resolution,
//! all in integer fixed-point arithmetic.

pub mod ai;
pub mod combat;
pub mod consts;
pub mod fixed;
pub mod grid;
pub mod hud;
pub mod inventory;
pub mod level;
pub mod loot;
pub mod los;
pub mod menu;
pub mod order;
pub mod player;
pub mod raycast;
pub mod render;
pub mod sprites;
pub mod types;
pub mod weapons;
