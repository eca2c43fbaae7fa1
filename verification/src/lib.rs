//! Bit-interleaved (Morton / Z-order) encoding of 2- and 3-dimensional
//! integer coordinates into a single integer key, together with in-place
//! per-axis arithmetic on encoded keys.
//!
//! A Morton code interleaves the bits of several coordinates so that nearby
//! points receive nearby keys.  The crate provides, per supported bit
//! budget, the bit-spread primitives, the axis mask constants, the
//! encode/decode routines, and masked increment / decrement / comparison
//! operations that step along one axis of a code without decoding it.

pub mod axis;
pub mod bits;
pub mod codec;
pub mod laws;
pub mod spread;
