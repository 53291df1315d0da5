//! Playback of register-dump songs: playback state, the loader of YM files
//! and the tracker formats.

pub mod tracker;
pub mod vbl_sync;
pub mod ym_player;

use vstd::prelude::*;
use crate::error::Ym2149Error;

verus! {

/// Playback state.
#[derive(Debug, Clone, Copy, PartialEq, Eq, Structural)]
pub enum PlaybackState {
    /// Stopped.
    Stopped,
    /// Currently playing.
    Playing,
    /// Paused.
    Paused,
}

/// A parser of a music file format into register frames.
pub trait FormatParser {
    /// Parses file data into register frames.
    fn parse(&self, data: &[u8]) -> Result<Vec<[u8; 16]>, Ym2149Error>;

    /// The parser's name.
    fn name(&self) -> &str;
}

/// Simple playback controller.
pub trait PlaybackController {
    /// Starts playback.
    fn play(&mut self) -> Result<(), Ym2149Error>;

    /// Pauses playback.
    fn pause(&mut self) -> Result<(), Ym2149Error>;

    /// Stops playback.
    fn stop(&mut self) -> Result<(), Ym2149Error>;

    /// The current playback state.
    fn state(&self) -> PlaybackState;
}

} // verus!
