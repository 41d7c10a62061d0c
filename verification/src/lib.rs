//! Two-party weighted Schnorr signature aggregation over the bn256 curve.
//!
//! A user and a sequencer each hold a key pair. A key-binding hash of both
//! public keys gives each party a weight; the weighted sum of the public keys
//! is the aggregate key. Both parties share one public nonce and one
//! Fiat-Shamir challenge, which also commits to a sequencing index, and each
//! contributes a partial response; the sum of the responses is a single
//! Schnorr signature under the aggregate key.
//!
//! Curve and field arithmetic come from halo2curves, and the algebraic sponge
//! hash from neptune; both are relied on only through small trusted items.
//! Everything else is verified.

use vstd::prelude::*;

pub mod field;
pub mod group;
pub mod hash;
pub mod schnorr;
pub mod aggregate;
pub mod laws;
pub mod protocol;

verus! {

/// The errors of the signature core.
///
/// Rejection of a signature is not an error: verification returns a boolean.
#[derive(Clone, Copy, PartialEq, Eq, Structural, Debug)]
pub enum SchnorrError {
    /// A byte string that is not the canonical encoding of a field element.
    /// Recoverable: reject the input.
    InvalidEncoding,
    /// A base-field value too large to be read as a scalar-field value.
    /// A fatal invariant violation, surfaced at once and never retried.
    ConversionInvariantViolation,
}

} // verus!
