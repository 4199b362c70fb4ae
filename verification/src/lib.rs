//! Core engine of a turn-based spiral city-building game.
//!
//! The library holds the verified game logic: the building catalog with its
//! cost, affordability and adjacency-production rules, the grid of placed
//! buildings, the outward rectangular-spiral navigator, the resource pool,
//! and the per-turn state transition. Rendering to the console and reading
//! player input live outside the library.

pub mod buildings;
pub mod grid;
pub mod laws;
pub mod random;
pub mod resources;
pub mod states;
