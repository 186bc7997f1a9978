//! Core of a turn-based grid world: a bounds-checked 2D grid, capability
//! bitmasks for movement and vision, tile permission queries over a map,
//! an action model with fixed time costs, and a turn scheduler that orders
//! actors by accumulated in-game time.

pub mod action;
pub mod actor;
pub mod ai;
pub mod canvas;
pub mod game_state;
pub mod grid;
pub mod map;
pub mod map_gen;
pub mod map_manager;
pub mod masks;
pub mod point;
pub mod progress;
pub mod random;
pub mod range;
pub mod scheduler;
pub mod shapes;
pub mod terrain;
pub mod tile_map;
pub mod timer;
pub mod turn;
