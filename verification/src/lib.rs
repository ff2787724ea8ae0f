//! A discrete-time, grid-based snake and tower-defense simulation.
//!
//! A player-controlled snake moves on an integer lattice, avoiding static
//! blocks, tower beams and its own body while pursuing goal tiles. This crate
//! holds the whole game-state engine: the grid world, the snake's movement
//! and growth rule, obstacle classification, the tower charge/fire state
//! machine, and beam-path collision. Rendering and input belong to the host
//! application; it feeds directions in and reads the resulting `Game` out.

pub mod beam;
pub mod game;
pub mod geometry;
pub mod laws;
pub mod level;
pub mod moves;
pub mod snake;
pub mod tower;
