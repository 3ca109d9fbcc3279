//! A single lit pixel that sweeps back and forth along a ten-pixel strip,
//! its hue following its position.

pub mod color;
pub mod animator;
