//! Core of an air-traffic-control game: a discrete-time simulation in which
//! aircraft spawn at map edges or airports, carry a destination, and are
//! steered by short textual instructions toward that destination without
//! colliding, running out of fuel, leaving the map illegally, or hitting the
//! ground.
//!
//! The crate covers the geometry and heading model, the command data model
//! and its parser, the per-aircraft command-resolution state machine, and
//! the per-tick simulation loop. Rendering, keyboard input, pacing and
//! scenario selection are left to the surrounding program.

pub mod cli;
pub mod command;
pub mod command_parser;
pub mod direction;
pub mod display;
pub mod game;
pub mod level;
pub mod locations;
pub mod plane;
pub mod point;
pub mod text;
