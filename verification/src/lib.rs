//! A tile-based tavern simulation: a grid of tiles and fixtures, movable
//! items with exclusive ownership, and actors that move across the tiles
//! and trade items with the fixtures, one of them steered by a person and
//! the others by their own thirst and mood.
//!
//! All state is integral. Positions are in world units, times in
//! milliseconds, stats in ten-thousandths of a point, and intents to move
//! in thousandths of a step, so that every rule is exact and is stated as
//! a contract.
//!
//! - [`vector`]: integer vectors and clamped arithmetic.
//! - [`direction`]: unit vectors in thousandths.
//! - [`tilemap`]: the grid and the transforms between world and tile space.
//! - [`item`]: items, stats, and the table that records each item's owner.
//! - [`fixture`]: spawner, mixer, container and trash.
//! - [`player`]: what every actor has: heading, intent, hands, order.
//! - [`timer`], [`animate`]: countdowns and frame animation.
//! - [`npc`]: the patron's stats and the behaviour they choose.
//! - [`world`]: all of it together, and one frame of it.

pub mod vector;
pub mod direction;
pub mod tilemap;
pub mod item;
pub mod fixture;
pub mod player;
pub mod timer;
pub mod animate;
pub mod npc;
mod chance;
pub mod world;
