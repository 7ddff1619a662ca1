//! A keyboard-driven 2D player sprite: per-frame movement resolution and a
//! timer-gated walk/attack animation over a fixed 9-column, 8-row sprite
//! sheet.
//!
//! The crate models the player's state with plain integers: positions are
//! whole distance units and time is counted in nanoseconds, so every update
//! rule is exact arithmetic. The host engine polls the keyboard, drives the
//! frame clock and draws the chosen sprite cell; this crate decides, each
//! frame, where the player stands, which way it faces, and which cell of the
//! sheet to show.

pub mod animation;
pub mod frame;
pub mod movement;
pub mod player;
