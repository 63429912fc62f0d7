//! Core of a side-scrolling obstacle-avoidance game: a session state machine
//! (menu, playing, game over), distance-gated obstacle spawning and cleanup,
//! player lift control with velocity clamping, contact-driven death detection,
//! and distance-based scoring.
//!
//! The engine-facing collaborators (rendering, windowing, rigid-body physics,
//! input hit-testing) are not part of this crate. Their effect on the game is
//! modelled explicitly: positions are integrated from commanded velocities
//! once per tick, and contact-start events and edge-triggered inputs arrive as
//! plain values in [`world::TickInput`].
//!
//! All world coordinates and velocities are fixed-point integers in
//! milli-units: 1000 stands for one world unit (see [`consts`]).

pub mod consts;
pub mod entities;
pub mod obstacles;
pub mod player;
pub mod state;
pub mod ui;
pub mod world;
