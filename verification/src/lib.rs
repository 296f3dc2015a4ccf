//! A snake game played on a fixed grid, with its rules stated and proved.
//!
//! The crate is layered bottom-up: [`coord`] holds coordinates and headings,
//! [`grid`] the grid of cells, [`creature`] the creature that moves and grows
//! on a grid, [`food`] the placing of food, and [`game`] the simulation that
//! owns grid and creature, paces the steps and records death. [`error`] lists
//! the failures.
//!
//! Every executable function states its effect over a mathematical view of
//! the data: [`grid::GridView`], [`creature::CreatureView`] and
//! [`game::GameView`].

pub mod coord;
pub mod creature;
pub mod error;
pub mod food;
pub mod game;
pub mod grid;
