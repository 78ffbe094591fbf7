//! Elementwise rectified-linear (ReLU) kernels over IEEE-754 single-precision
//! bit patterns, with a capability dispatcher and a verification harness.
//!
//! The kernels operate on `u32` bit patterns of `f32` values (as produced by
//! `f32::to_bits`), which lets every tier's behaviour be stated and proved
//! exactly, down to the NaN and signed-zero policy. Callers that hold `f32`
//! buffers convert with `to_bits`/`from_bits` at the boundary.

pub mod dispatch;
pub mod harness;
pub mod kernel;
