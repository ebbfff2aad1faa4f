//! The core of a terminal audio player: what a track's file says about it,
//! how far its progress bar has filled, and what the terminal is sent.
//!
//! Reading files, the clock, the audio device and the terminal handle stay
//! with the caller; everything here works on plain values.

pub mod ansi;
pub mod duration;
pub mod error;
pub mod metadata;
pub mod player;
pub mod player_laws;
pub mod progress;
pub mod progress_laws;
pub mod render;
pub mod screen;
pub mod sniff;
pub mod text;
