//! A snake game on a walled grid: the board, the snake's movement and growth,
//! food placement, steering from key input and the per-tick state machine.

pub mod control;
pub mod food;
pub mod game;
pub mod grid;
pub mod snake;
