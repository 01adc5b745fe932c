//! Decoder for the IDX binary array format: a fixed big-endian header
//! (signature, element-type tag, rank, axis sizes) followed by a flat
//! run of fixed-width elements, with strict end-of-input enforcement.

use vstd::prelude::*;

pub mod dynamic;
pub mod fixed;
pub mod format;
pub mod gray;
pub mod laws;
pub mod wire;

pub use fixed::IdxArray;
pub use format::{DataFormat, F32Bits, F64Bits, Sealed};
pub use gray::GrayFrame;

verus! {

/// Error from parsing an IDX byte buffer: the input was not a valid,
/// exactly-matching encoding for the requested element type and rank.
#[derive(Debug, Clone)]
pub struct Error;

} // verus!
