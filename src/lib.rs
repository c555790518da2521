//! The simulation core of a 2D arcade shooter: a player ship, enemies,
//! bullets and explosion particles, advanced in discrete time steps from a
//! seeded pseudo-random stream, with collisions resolved after each step and
//! the result handed to a renderer as draw commands.
pub mod geometry;
pub mod models;
pub mod world;
pub mod time;
pub mod collisions;
pub mod render;
pub mod game;
pub mod laws;
pub mod rng;
