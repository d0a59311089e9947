//! Aggregate-public-key membership proving over two curves.
//!
//! The library models the core of a proof system that shows, in zero
//! knowledge, that a disclosed aggregate public key equals the sum of a
//! hidden subset of known BLS12-381 keys plus a seed point, proved with a
//! Groth16 SNARK over BN254.  Key-curve field elements are carried as
//! little-endian 64-bit word vectors, split into native-field limbs for the
//! public-input vector, and the proof and verifying key are re-encoded into
//! the point layout an on-chain pairing-check verifier expects.

use vstd::prelude::*;

pub mod words;
pub mod fields;
pub mod limbs;
pub mod point;
pub mod circuit;
pub mod adapter;
pub mod protocol;

verus! {

/// The error kinds a proof session can surface.
#[derive(Clone, Copy, Debug, PartialEq, Eq, Structural)]
pub enum ApkError {
    /// A value does not fit the fixed limb width, or a word vector has the
    /// wrong shape for its field.
    Encoding,
    /// The circuit relation cannot hold for the supplied values.
    Constraint,
    /// A structural mismatch while re-encoding points, the proof or the
    /// verifying key for the on-chain verifier.
    Adapter,
    /// The off-chain and on-chain verification results disagree.
    Mismatch,
    /// The on-chain call itself failed to execute.
    Transport,
}

} // verus!
