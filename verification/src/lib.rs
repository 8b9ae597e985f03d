//! Core of a 2D top-down simulation: axis-aligned collision detection and
//! positional correction, a world registry of walls and collectibles, a
//! movement resolver, a pickup interaction system, a trigger-gated UI toggle,
//! and a frame driver that runs them in a fixed order each tick.
//!
//! Rendering, input sampling and all other presentation concerns live outside
//! this crate; the host hands each tick an input snapshot of plain booleans
//! and consumes the computed positions, despawn notices and UI events.

pub mod driver;
pub mod geometry;
pub mod interaction;
pub mod level;
pub mod movement;
pub mod ui;
pub mod world;

pub use geometry::{Aabb, Correction, Vec2};
pub use world::{Collectible, CollectibleKind, Entity, Player, SimError, Wall, World};
