//! Cycle-accurate YM2149 programmable sound generator emulation.

pub mod error;
pub mod bits;
pub mod text;
pub mod cycle_counter;
pub mod tables;
pub mod generators;
pub mod dc_filter;
pub mod mixer;
pub mod chip;
pub mod psg_bank;
pub mod gist;
pub mod mfp;
pub mod util;
pub mod channel_state;
pub mod ym2149;
pub mod cli;
pub mod replayer;
pub mod export;
pub mod metadata;
