//! Byte-level model of the two prime fields of the bn256 curve.
//!
//! An element of either field is held as its canonical little-endian
//! encoding, 32 bytes whose value is below the field order. Equality of
//! elements is equality of encodings, arithmetic is done by the field
//! implementation of halo2curves behind trusted items, and the bridge from
//! the base field to the scalar field is a re-reading of the canonical bytes
//! with no reduction.

use vstd::prelude::*;

use crate::SchnorrError;
use halo2curves::bn256::Fq;
use halo2curves::bn256::Fr;
use halo2curves::ff::Field;
use halo2curves::ff::PrimeField;
use rand::rngs::OsRng;

verus! {

/// Value of a little-endian byte string: the byte at index 0 is the least
/// significant one.
pub open spec fn le_val(s: Seq<u8>) -> nat
    decreases s.len(),
{
    if s.len() == 0 {
        0
    } else {
        le_val(s.drop_last()) + (s.last() as nat) * pow256((s.len() - 1) as nat)
    }
}

/// 256 raised to the power `n`.
pub open spec fn pow256(n: nat) -> nat
    decreases n,
{
    if n == 0 {
        1
    } else {
        256 * pow256((n - 1) as nat)
    }
}

/// Order of the scalar field `Fr` of bn256: the number of points of the
/// curve group. Private keys, nonces and responses live in this field.
pub open spec fn r_modulus() -> nat {
    21888242871839275222246405745257275088548364400416034343698204186575808495617nat
}

/// Order of the base field `Fq` of bn256: the field of curve coordinates and
/// of the sponge hash. It is larger than `r_modulus()`, so reading a
/// base-field value as a scalar-field value can fail.
pub open spec fn q_modulus() -> nat {
    21888242871839275222246405745257275088696311157297823662689037894645226208583nat
}

/// An element of the scalar field.
#[derive(Clone, Copy)]
pub struct Scalar {
    pub(crate) bytes: [u8; 32],
}

/// An element of the base field.
#[derive(Clone, Copy)]
pub struct Base {
    pub(crate) bytes: [u8; 32],
}

impl Scalar {
    /// The canonical little-endian encoding of the element.
    pub closed spec fn enc(&self) -> Seq<u8> {
        self.bytes@
    }

    /// The element, as the integer its encoding denotes.
    pub open spec fn val(&self) -> nat {
        le_val(self.enc())
    }

    /// Every scalar the library holds is canonical.
    #[verifier::type_invariant]
    pub open spec fn inv(&self) -> bool {
        self.val() < r_modulus()
    }

    /// The canonical encoding, as plain bytes.
    pub fn to_bytes(&self) -> (r: [u8; 32])
        ensures
            r@ == self.enc(),
    {
        self.bytes
    }

    /// Reads a scalar from exactly the canonical encodings; rejects the rest.
    pub fn from_bytes(bytes: &[u8; 32]) -> (r: Result<Scalar, SchnorrError>)
        ensures
            r is Ok <==> le_val(bytes@) < r_modulus(),
            r matches Ok(s) ==> s.enc() == bytes@,
            r matches Err(e) ==> e == SchnorrError::InvalidEncoding,
    {
        match fr_from_bytes(bytes) {
            Some(s) => Ok(s),
            None => Err(SchnorrError::InvalidEncoding),
        }
    }

    /// The scalar with the given small value.
    pub fn from_u64(v: u64) -> (r: Scalar)
        ensures
            r.val() == v as nat,
    {
        fr_from_u64(v)
    }

    /// The sum of two scalars, in the field.
    pub fn added(&self, other: &Scalar) -> (r: Scalar)
        ensures
            r.val() == (self.val() + other.val()) % r_modulus(),
    {
        fr_add(self, other)
    }

    /// The product of two scalars, in the field.
    pub fn times(&self, other: &Scalar) -> (r: Scalar)
        ensures
            r.val() == (self.val() * other.val()) % r_modulus(),
    {
        fr_mul(self, other)
    }

    /// The difference of two scalars, in the field.
    pub fn minus(&self, other: &Scalar) -> (r: Scalar)
        ensures
            r.val() as int == (self.val() + r_modulus() - other.val()) % (r_modulus() as int),
    {
        fr_sub(self, other)
    }
}

impl Base {
    /// The canonical little-endian encoding of the element.
    pub closed spec fn enc(&self) -> Seq<u8> {
        self.bytes@
    }

    /// The element, as the integer its encoding denotes.
    pub open spec fn val(&self) -> nat {
        le_val(self.enc())
    }

    /// Every base-field element the library holds is canonical.
    #[verifier::type_invariant]
    pub open spec fn inv(&self) -> bool {
        self.val() < q_modulus()
    }

    /// The canonical encoding, as plain bytes.
    pub fn to_bytes(&self) -> (r: [u8; 32])
        ensures
            r@ == self.enc(),
    {
        self.bytes
    }

    /// Reads a base-field element from exactly the canonical encodings;
    /// rejects the rest. Messages enter the protocol through this reading.
    pub fn from_bytes(bytes: &[u8; 32]) -> (r: Result<Base, SchnorrError>)
        ensures
            r is Ok <==> le_val(bytes@) < q_modulus(),
            r matches Ok(b) ==> b.enc() == bytes@,
            r matches Err(e) ==> e == SchnorrError::InvalidEncoding,
    {
        match fq_from_bytes(bytes) {
            Some(b) => Ok(b),
            None => Err(SchnorrError::InvalidEncoding),
        }
    }

    /// The base-field element with the given small value, such as a
    /// sequencing index.
    pub fn from_u64(v: u64) -> (r: Base)
        ensures
            r.val() == v as nat,
    {
        fq_from_u64(v)
    }
}

/// The field bridge: reads a base-field element as a scalar-field element by
/// re-reading its canonical bytes, with no reduction and no loss. On the
/// legal range, below `r_modulus()`, the result's canonical encoding is
/// exactly the input's canonical encoding. Since the base field is the
/// larger one here, a value at or above `r_modulus()` has no such reading:
/// that case is the fatal `ConversionInvariantViolation`.
pub fn mod_r_p(x: &Base) -> (r: Result<Scalar, SchnorrError>)
    ensures
        r is Ok <==> x.val() < r_modulus(),
        r matches Ok(s) ==> s.val() == x.val() && s.enc() == x.enc(),
        r matches Err(e) ==> e == SchnorrError::ConversionInvariantViolation,
{
    match fr_from_bytes(&x.bytes) {
        Some(s) => Ok(s),
        None => Err(SchnorrError::ConversionInvariantViolation),
    }
}

/// A fresh uniformly random scalar from the operating system's entropy
/// source: a private key or a nonce. A nonce must never be reused across two
/// signing sessions; the caller draws a fresh one per session.
pub fn random_scalar() -> (r: Scalar)
    ensures
        r.val() < r_modulus(),
{
    fr_random()
}

/// Relies on `Fr::from_repr` of halo2curves: it accepts exactly the
/// canonical little-endian encodings, the 32-byte strings whose value is
/// below the order of `Fr`.
#[verifier::external_body]
fn fr_from_bytes(bytes: &[u8; 32]) -> (r: Option<Scalar>)
    ensures
        r is Some <==> le_val(bytes@) < r_modulus(),
        r matches Some(s) ==> s.enc() == bytes@,
{
    if bool::from(Fr::from_repr((*bytes).into()).is_some()) {
        Some(Scalar { bytes: *bytes })
    } else {
        None
    }
}

/// Relies on `Fq::from_bytes` of halo2curves: it accepts exactly the
/// canonical little-endian encodings, the 32-byte strings whose value is
/// below the order of `Fq`.
#[verifier::external_body]
fn fq_from_bytes(bytes: &[u8; 32]) -> (r: Option<Base>)
    ensures
        r is Some <==> le_val(bytes@) < q_modulus(),
        r matches Some(b) ==> b.enc() == bytes@,
{
    if bool::from(Fq::from_bytes(bytes).is_some()) {
        Some(Base { bytes: *bytes })
    } else {
        None
    }
}

/// Relies on `+` for `Fr` of halo2curves: field addition modulo the order
/// of `Fr`. The inputs are canonical by the type invariant, so the two
/// decodings cannot fail.
#[verifier::external_body]
fn fr_add(a: &Scalar, b: &Scalar) -> (r: Scalar)
    ensures
        r.val() == (a.val() + b.val()) % r_modulus(),
{
    let x = Fr::from_repr(a.bytes.into()).unwrap() + Fr::from_repr(b.bytes.into()).unwrap();
    Scalar { bytes: x.to_repr().into() }
}

/// Relies on `-` for `Fr` of halo2curves: field subtraction modulo the order
/// of `Fr`. The inputs are canonical by the type invariant.
#[verifier::external_body]
fn fr_sub(a: &Scalar, b: &Scalar) -> (r: Scalar)
    ensures
        r.val() as int == (a.val() + r_modulus() - b.val()) % (r_modulus() as int),
{
    let x = Fr::from_repr(a.bytes.into()).unwrap() - Fr::from_repr(b.bytes.into()).unwrap();
    Scalar { bytes: x.to_repr().into() }
}

/// Relies on `*` for `Fr` of halo2curves: field multiplication modulo the
/// order of `Fr`. The inputs are canonical by the type invariant.
#[verifier::external_body]
fn fr_mul(a: &Scalar, b: &Scalar) -> (r: Scalar)
    ensures
        r.val() == (a.val() * b.val()) % r_modulus(),
{
    let x = Fr::from_repr(a.bytes.into()).unwrap() * Fr::from_repr(b.bytes.into()).unwrap();
    Scalar { bytes: x.to_repr().into() }
}

/// Relies on `Fr::random` of halo2curves over the operating system's entropy
/// source: the result is some element of `Fr`; nothing more is assumed of it.
#[verifier::external_body]
fn fr_random() -> (r: Scalar)
    ensures
        r.val() < r_modulus(),
{
    Scalar { bytes: Fr::random(OsRng).to_repr().into() }
}

/// Relies on `Fr::from` for `u64` of halo2curves: the element congruent to
/// the argument, which is its value, every `u64` being below the order.
#[verifier::external_body]
fn fr_from_u64(v: u64) -> (r: Scalar)
    ensures
        r.val() == v as nat,
{
    Scalar { bytes: Fr::from(v).to_repr().into() }
}

/// Relies on `Fq::from` for `u64` of halo2curves: the element congruent to
/// the argument, which is its value, every `u64` being below the order.
#[verifier::external_body]
fn fq_from_u64(v: u64) -> (r: Base)
    ensures
        r.val() == v as nat,
{
    Base { bytes: Fq::from(v).to_bytes() }
}

} // verus!
