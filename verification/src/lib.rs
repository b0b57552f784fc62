//! A playlist controller for a terminal audio player.
//!
//! The controller keeps an ordered catalog of tracks, the index of the
//! selected track, and the one playback session that may be live. It decides;
//! the caller performs the audio work and reports back how it went.

pub mod controller;
pub mod error;
pub mod input;
pub mod selection;
pub mod state;
pub mod track;
