//! Position tracking and transport control for a single-track audio player.
//!
//! The library keeps the bookkeeping that must never go wrong: the pause-aware
//! elapsed-time record, the volume level and the playlist state machine. Audio
//! decoding and the output device are driven by the caller, which mirrors the
//! engine's `is_playing` and `volume` onto the device after each intent.

pub mod engine;
pub mod music;
pub mod player;
pub mod ui;
