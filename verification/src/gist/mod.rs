//! The GIST sound-effect driver for the YM2149 (Atari ST, 200 Hz).

pub mod sound;
pub mod voice;
pub mod driver;
pub mod player;
pub mod lifetime;
