//! Verified core of a terminal remote control for a local media player.
//!
//! The library owns the application state machine (modes, volume, search
//! buffer and selection), the polling decisions that keep that state in step
//! with the external player, the artwork-resolution pipeline's pure stages,
//! and the builders/readers for the automation scripts and catalog queries.
//! All I/O (running scripts, HTTP fetches, drawing) lives outside, in an
//! unverified shell that feeds plain values in and carries commands out.

pub mod adapter;
pub mod app;
pub mod artwork;
pub mod events;
pub mod search;
pub mod text;
pub mod track;

pub use track::{PlayerState, TrackInfo};
