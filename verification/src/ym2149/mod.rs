//! The compact YM2149 state machine and its envelope shapes.

pub mod chip;
pub mod envelope;

pub use chip::Ym2149;
