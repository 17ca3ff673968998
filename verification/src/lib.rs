//! Conway's Game of Life on a bounded grid, with a catalogue of stampable
//! patterns and the controller that binds them to key events.
pub mod gol;
pub mod grid;
pub mod life;
pub mod scene;
pub mod stamp;
