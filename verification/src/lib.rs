//! Simulation core of a grid-based snake game.
//!
//! A snake's head moves across a grid of cells, one cell per movement tick
//! along its heading; held direction keys turn it by quarter turns; and a
//! food spawner sees to it that the world holds one piece of food. The core
//! works on integers only: what is a fraction of a cell is carried as a bit
//! pattern, and pixels are the business of whoever draws the world.

pub mod direction;
pub mod grid;
pub mod world;

pub use direction::{HeldKeys, Key, SnakeDirection};
pub use grid::{Position, Size, ARENA_HEIGHT, ARENA_WIDTH, SPRITE_EXTENT};
pub use world::{
    food_spawner, snake_input, snake_movement, spawn_snake, Entity, World,
    FOOD_STEPS_PER_SECOND, MOVEMENT_STEPS_PER_SECOND,
};
