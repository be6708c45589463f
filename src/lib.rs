//! Core logic of a tile-based world viewer: the tile-map model and its checks,
//! the world-to-grid transform, the hovered-cell selector, the player's
//! animation state machine and movement rules, and a procedural map generator.

pub mod animation;
pub mod generate;
pub mod grid;
pub mod movement;
pub mod resolution;
pub mod selector;
pub mod tilemap;
