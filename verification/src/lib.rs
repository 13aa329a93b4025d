//! A small digital-signal-processing toolkit: stateful waveform generators
//! that fill sample buffers one pull at a time, and an immutable `Signal`
//! container over an ordered sample sequence with pointwise addition, scalar
//! scaling, delay, and direct-form convolution.

pub mod error;
pub mod generator;
pub mod sample;
pub mod signal;
