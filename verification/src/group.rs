//! The bn256 curve group, modelled by discrete logarithms.
//!
//! The group is cyclic of prime order `r_modulus()`, generated by the fixed
//! point (1, 2). A `Point` holds the curve point of halo2curves together with
//! a ghost copy of its discrete logarithm to that base; the group operations
//! of halo2curves stand behind trusted items whose contracts speak only of
//! those logarithms, so that the protocol's algebra becomes arithmetic
//! modulo `r_modulus()`.

use vstd::prelude::*;

use crate::field::{r_modulus, Base, Scalar};
use halo2curves::bn256::G1;
use halo2curves::ff::PrimeField;
use halo2curves::group::Curve;
use halo2curves::group::Group;

verus! {

/// Declares the bn256 curve group type of halo2curves, so that a point can
/// be carried in a field below. Verus sees nothing inside a value of it.
#[verifier::external_type_specification]
#[verifier::external_body]
pub struct ExG1(G1);

/// The affine coordinates of the curve point with the given discrete
/// logarithm: a name for what `to_affine` of halo2curves returns, a function
/// of the point alone. The identity point is reported as (0, 0).
pub uninterp spec fn point_coords(dlog: nat) -> (nat, nat);

/// A point of the curve group: a public key, a public nonce or a commitment.
///
/// The ghost field is the point's discrete logarithm with respect to the
/// generator (1, 2), always below the group order.
#[derive(Clone, Copy)]
pub struct Point {
    pub(crate) inner: G1,
    pub(crate) dl: Ghost<nat>,
}

impl Point {
    /// The discrete logarithm of the point with respect to the generator.
    pub closed spec fn dlog(&self) -> nat {
        self.dl@
    }

    /// Every point the library holds carries a reduced discrete logarithm.
    #[verifier::type_invariant]
    pub open spec fn inv(&self) -> bool {
        self.dlog() < r_modulus()
    }

    /// The fixed public generator of the group, the point with affine
    /// coordinates (1, 2).
    pub fn generator() -> (r: Point)
        ensures
            r.dlog() == 1,
            point_coords(r.dlog()) == (1nat, 2nat),
    {
        point_generator()
    }

    /// The identity element of the group.
    pub fn identity() -> (r: Point)
        ensures
            r.dlog() == 0,
    {
        point_identity()
    }

    /// The group sum of two points.
    pub fn plus(&self, other: &Point) -> (r: Point)
        ensures
            r.dlog() == (self.dlog() + other.dlog()) % r_modulus(),
    {
        point_add(self, other)
    }

    /// The group difference of two points.
    pub fn minus(&self, other: &Point) -> (r: Point)
        ensures
            r.dlog() as int == (self.dlog() + r_modulus() - other.dlog()) % (
            r_modulus() as int),
    {
        point_sub(self, other)
    }

    /// The point multiplied by a scalar.
    pub fn scaled(&self, s: &Scalar) -> (r: Point)
        ensures
            r.dlog() == (self.dlog() * s.val()) % r_modulus(),
    {
        point_mul(self, s)
    }

    /// Whether two points are the same group element.
    pub fn equals(&self, other: &Point) -> (r: bool)
        ensures
            r == (self.dlog() == other.dlog()),
    {
        point_eq(self, other)
    }

    /// The affine coordinates of the point, each a base-field element; the
    /// identity is reported as (0, 0).
    pub fn coordinates(&self) -> (r: (Base, Base))
        ensures
            (r.0.val(), r.1.val()) == point_coords(self.dlog()),
    {
        point_affine_coords(self)
    }
}

/// Relies on `G1::generator` of halo2curves: the fixed point (1, 2), which
/// generates the whole group, the group being cyclic of prime order
/// `r_modulus()`. Its affine coordinates are the constants 1 and 2 of the
/// curve definition.
#[verifier::external_body]
fn point_generator() -> (r: Point)
    ensures
        r.dlog() == 1,
        point_coords(r.dlog()) == (1nat, 2nat),
{
    Point { inner: G1::generator(), dl: Ghost(0) }
}

/// Relies on `G1::identity` of halo2curves: the neutral element, the zeroth
/// power of the generator.
#[verifier::external_body]
fn point_identity() -> (r: Point)
    ensures
        r.dlog() == 0,
{
    Point { inner: G1::identity(), dl: Ghost(0) }
}

/// Relies on `+` for `G1` of halo2curves: the group law, which adds discrete
/// logarithms modulo the group order.
#[verifier::external_body]
fn point_add(a: &Point, b: &Point) -> (r: Point)
    ensures
        r.dlog() == (a.dlog() + b.dlog()) % r_modulus(),
{
    Point { inner: a.inner + b.inner, dl: Ghost(0) }
}

/// Relies on `-` for `G1` of halo2curves: the group law, which subtracts
/// discrete logarithms modulo the group order.
#[verifier::external_body]
fn point_sub(a: &Point, b: &Point) -> (r: Point)
    ensures
        r.dlog() as int == (a.dlog() + r_modulus() - b.dlog()) % (r_modulus() as int),
{
    Point { inner: a.inner - b.inner, dl: Ghost(0) }
}

/// Relies on `*` for `G1` and a scalar of halo2curves: scalar multiplication,
/// which multiplies the discrete logarithm modulo the group order. The scalar
/// decodes since it is canonical by its type invariant.
#[verifier::external_body]
fn point_mul(p: &Point, s: &Scalar) -> (r: Point)
    ensures
        r.dlog() == (p.dlog() * s.val()) % r_modulus(),
{
    let k = halo2curves::bn256::Fr::from_repr(s.bytes.into()).unwrap();
    Point { inner: p.inner * k, dl: Ghost(0) }
}

/// Relies on `==` for `G1` of halo2curves: equality of group elements, which
/// for a cyclic group of order `r_modulus()` is equality of the discrete
/// logarithms, both being reduced by the type invariant.
#[verifier::external_body]
fn point_eq(a: &Point, b: &Point) -> (r: bool)
    ensures
        r == (a.dlog() == b.dlog()),
{
    a.inner == b.inner
}

/// Relies on `to_affine` of halo2curves: the canonical affine coordinates,
/// a function of the group element alone, with the identity mapped to (0, 0);
/// and on `Fq::to_bytes`, whose output is the canonical encoding.
#[verifier::external_body]
fn point_affine_coords(p: &Point) -> (r: (Base, Base))
    ensures
        (r.0.val(), r.1.val()) == point_coords(p.dlog()),
{
    let a = p.inner.to_affine();
    (Base { bytes: a.x.to_bytes() }, Base { bytes: a.y.to_bytes() })
}

} // verus!
