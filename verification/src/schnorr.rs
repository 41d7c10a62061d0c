//! Keys, signatures, and the Schnorr signing and verification equations.
//!
//! The single-party pair `sign` / `verify` is the baseline: `sign` samples a
//! nonce, commits to it, derives the challenge from the commitment and the
//! message, and responds; `verify` recomputes the challenge and checks
//! `sG == R + eP` on the curve. The weighted pair `sign_ext` / `verify_ext`
//! is one party's half of the two-party protocol: nonce, weight and
//! challenge are fixed beforehand and shared, and the response binds the
//! secret through the party's weight.

use vstd::arithmetic::div_mod::lemma_small_mod;
use vstd::prelude::*;

use crate::field::{le_val, mod_r_p, q_modulus, r_modulus, random_scalar, Base, Scalar};
use crate::group::{point_coords, Point};
use crate::hash::{poseidon_hash, sponge_hash_of, vals_of};
use crate::SchnorrError;

verus! {

/// The fixed public generator of the curve group, the point with affine
/// coordinates (1, 2).
pub fn nk_generator() -> (r: Point)
    ensures
        r.dlog() == 1,
        point_coords(r.dlog()) == (1nat, 2nat),
{
    Point::generator()
}

/// The single-party challenge: the hash of the commitment's affine
/// coordinates followed by the message, read as a base-field value.
pub open spec fn single_challenge(commit_dlog: nat, msg: nat) -> nat {
    sponge_hash_of(seq![point_coords(commit_dlog).0, point_coords(commit_dlog).1, msg])
}

/// The Schnorr acceptance condition `sG == R + eP`, on discrete logarithms:
/// the response, against the commitment, the public key and the challenge.
pub open spec fn schnorr_holds(pk_dlog: nat, commit_dlog: nat, response: nat, e: nat) -> bool {
    response == (commit_dlog + (pk_dlog * e) % r_modulus()) % r_modulus()
}

/// The weighted partial response `nonce + key * weight * challenge`, with the
/// products reduced as they are taken, left to right.
pub open spec fn partial_response(key: nat, nonce: nat, w: nat, e: nat) -> nat {
    (nonce + (((key * w) % r_modulus()) * e) % r_modulus()) % r_modulus()
}

/// The weighted acceptance condition `sG == R + w·e·P`, on discrete
/// logarithms, with the products reduced as `verify_ext` takes them.
pub open spec fn partial_holds(pk_dlog: nat, commit_dlog: nat, response: nat, w: nat, e: nat) -> bool {
    response == (commit_dlog + (((pk_dlog * w) % r_modulus()) * e) % r_modulus()) % r_modulus()
}

/// A private key: one scalar, never serialized, created by secure random
/// sampling.
#[derive(Clone, Copy)]
pub struct SecretKey {
    pub(crate) s: Scalar,
}

/// A public key: the generator raised to the private key.
pub struct PublicKey {
    pub(crate) p: Point,
}

/// A signature, partial or aggregate: a commitment to a nonce, and a
/// response binding the secret to the challenge.
#[derive(Clone, Copy)]
pub struct Signature {
    pub commit: Point,
    pub response: Scalar,
}

/// The two hash values both parties share in a session: the key-binding
/// hash of the public key set, and the challenge `e = H(R, X, m, index)`.
pub struct SharedValue {
    pub hash_pubs: Base,
    pub challenge: Base,
}

impl SecretKey {
    /// The secret, as the integer its encoding denotes.
    pub closed spec fn val(&self) -> nat {
        self.s.val()
    }

    /// The secret scalar.
    pub fn inner(&self) -> (r: Scalar)
        ensures
            r.val() == self.val(),
    {
        self.s
    }

    /// A fresh uniformly random secret key.
    pub fn random() -> (r: Self)
        ensures
            r.val() < r_modulus(),
    {
        SecretKey { s: random_scalar() }
    }

    /// The secret key with the given scalar, for fixed test vectors.
    pub fn from_scalar(s: Scalar) -> (r: Self)
        ensures
            r.val() == s.val(),
    {
        SecretKey { s }
    }
}

impl PublicKey {
    /// The discrete logarithm of the key: the secret it was derived from.
    pub closed spec fn dlog(&self) -> nat {
        self.p.dlog()
    }

    /// The key, as a curve point.
    pub fn inner(&self) -> (r: Point)
        ensures
            r.dlog() == self.dlog(),
    {
        self.p
    }

    /// Derives the public key of a secret key: the generator times the
    /// secret. Deterministic: the result is fixed by the secret alone.
    pub fn from_secret(s: SecretKey) -> (r: Self)
        ensures
            r.dlog() == s.val(),
    {
        let g = nk_generator();
        let p = g.scaled(&s.s);
        proof {
            use_type_invariant(&s.s);
            lemma_small_mod(s.s.val(), r_modulus());
        }
        PublicKey { p }
    }

    /// The public key standing at the given point, for points assembled by
    /// aggregation.
    pub fn from_point(p: Point) -> (r: Self)
        ensures
            r.dlog() == p.dlog(),
    {
        PublicKey { p }
    }
}

impl Signature {
    /// The identity signature: the identity commitment and the zero
    /// response, a placeholder value.
    pub fn dummy() -> (r: Self)
        ensures
            r.commit.dlog() == 0,
            r.response.val() == 0,
    {
        Signature { commit: Point::identity(), response: Scalar::from_u64(0) }
    }
}

/// A secret key signs messages.
pub trait SchnorrSecret {
    /// The secret, as an integer.
    spec fn secret_val(&self) -> nat;

    /// Signs a message: a fresh random nonce, its commitment, the challenge
    /// hashed from the commitment and the message, and the response
    /// `nonce + e * key`. The nonce is fresh per call and never reused.
    fn sign(&self, message: &[u8; 32]) -> (r: Result<Signature, SchnorrError>)
        ensures
            le_val(message@) >= q_modulus() ==> r is Err,
            r matches Err(e) ==> (e == SchnorrError::InvalidEncoding <==> le_val(message@)
                >= q_modulus()),
            r matches Ok(sig) ==> ({
                let e = single_challenge(sig.commit.dlog(), le_val(message@));
                &&& le_val(message@) < q_modulus()
                &&& e < r_modulus()
                &&& sig.response.val() == (sig.commit.dlog() + (e * self.secret_val())
                    % r_modulus()) % r_modulus()
            }),
    ;

    /// Signs with an externally fixed nonce, weight factor and challenge:
    /// one party's partial signature in the two-party protocol, where both
    /// parties must use the same challenge and their own weight. The nonce
    /// must be fresh for the session and never reused.
    fn sign_ext(&self, message: &[u8; 32], nonce: Scalar, weight_factor: Base, challenge: Base)
        -> (r: Result<Signature, SchnorrError>)
        ensures
            r is Ok <==> (weight_factor.val() < r_modulus() && challenge.val() < r_modulus()),
            r matches Err(e) ==> e == SchnorrError::ConversionInvariantViolation,
            r matches Ok(sig) ==> sig.commit.dlog() == nonce.val() && sig.response.val()
                == partial_response(
                self.secret_val(),
                nonce.val(),
                weight_factor.val(),
                challenge.val(),
            ),
    ;
}

/// A public key checks signatures.
pub trait SchnorrPublic {
    /// The discrete logarithm of the key.
    spec fn pub_dlog(&self) -> nat;

    /// Checks a single-party signature: recomputes the challenge from the
    /// commitment and the message and decides `sG == R + eP`. Rejection is
    /// the `false` value, not an error.
    fn verify(&self, message: &[u8; 32], signature: &Signature) -> (r: Result<
        bool,
        SchnorrError,
    >)
        ensures
            r is Ok <==> (le_val(message@) < q_modulus() && single_challenge(
                signature.commit.dlog(),
                le_val(message@),
            ) < r_modulus()),
            r matches Err(e) ==> (e == SchnorrError::InvalidEncoding <==> le_val(message@)
                >= q_modulus()),
            r matches Ok(b) ==> b == schnorr_holds(
                self.pub_dlog(),
                signature.commit.dlog(),
                signature.response.val(),
                single_challenge(signature.commit.dlog(), le_val(message@)),
            ),
    ;

    /// Checks one party's weighted partial signature against the shared
    /// weight factor and challenge: decides `sG == R + w·e·P`.
    fn verify_ext(&self, message: &[u8; 32], signature: &Signature, weight_factor: Base,
        challenge: Base) -> (r: Result<bool, SchnorrError>)
        ensures
            r is Ok <==> (weight_factor.val() < r_modulus() && challenge.val() < r_modulus()),
            r matches Err(e) ==> e == SchnorrError::ConversionInvariantViolation,
            r matches Ok(b) ==> b == partial_holds(
                self.pub_dlog(),
                signature.commit.dlog(),
                signature.response.val(),
                weight_factor.val(),
                challenge.val(),
            ),
    ;
}

impl SchnorrSecret for SecretKey {
    open spec fn secret_val(&self) -> nat {
        self.val()
    }

    fn sign(&self, message: &[u8; 32]) -> (r: Result<Signature, SchnorrError>) {
        let message_base = match Base::from_bytes(message) {
            Ok(b) => b,
            Err(e) => { return Err(e) },
        };
        let mask = random_scalar();
        let g = nk_generator();
        let commit = g.scaled(&mask);
        proof {
            lemma_small_mod(mask.val(), r_modulus());
        }
        let (cx, cy) = commit.coordinates();
        let mut v: Vec<Base> = Vec::new();
        v.push(cx);
        v.push(cy);
        v.push(message_base);
        proof {
            assert(vals_of(v@) =~= seq![
                point_coords(commit.dlog()).0,
                point_coords(commit.dlog()).1,
                le_val(message@),
            ]);
        }
        let challenge = poseidon_hash(v);
        let e_s = match mod_r_p(&challenge) {
            Ok(s) => s,
            Err(e) => { return Err(e) },
        };
        let response = mask.added(&e_s.times(&self.s));
        Ok(Signature { commit, response })
    }

    fn sign_ext(&self, message: &[u8; 32], nonce: Scalar, weight_factor: Base, challenge: Base)
        -> (r: Result<Signature, SchnorrError>) {
        let w_s = match mod_r_p(&weight_factor) {
            Ok(s) => s,
            Err(e) => { return Err(e) },
        };
        let e_s = match mod_r_p(&challenge) {
            Ok(s) => s,
            Err(e) => { return Err(e) },
        };
        let g = nk_generator();
        let commit = g.scaled(&nonce);
        proof {
            use_type_invariant(&nonce);
            lemma_small_mod(nonce.val(), r_modulus());
        }
        let response = nonce.added(&self.s.times(&w_s).times(&e_s));
        Ok(Signature { commit, response })
    }
}

impl SchnorrPublic for PublicKey {
    open spec fn pub_dlog(&self) -> nat {
        self.dlog()
    }

    fn verify(&self, message: &[u8; 32], signature: &Signature) -> (r: Result<
        bool,
        SchnorrError,
    >) {
        let message_base = match Base::from_bytes(message) {
            Ok(b) => b,
            Err(e) => { return Err(e) },
        };
        let (cx, cy) = signature.commit.coordinates();
        let mut v: Vec<Base> = Vec::new();
        v.push(cx);
        v.push(cy);
        v.push(message_base);
        proof {
            assert(vals_of(v@) =~= seq![
                point_coords(signature.commit.dlog()).0,
                point_coords(signature.commit.dlog()).1,
                le_val(message@),
            ]);
        }
        let challenge = poseidon_hash(v);
        let e_s = match mod_r_p(&challenge) {
            Ok(s) => s,
            Err(e) => { return Err(e) },
        };
        let g = nk_generator();
        let lhs = g.scaled(&signature.response);
        let rhs = signature.commit.plus(&self.p.scaled(&e_s));
        proof {
            use_type_invariant(&signature.response);
            lemma_small_mod(signature.response.val(), r_modulus());
        }
        Ok(lhs.equals(&rhs))
    }

    fn verify_ext(&self, message: &[u8; 32], signature: &Signature, weight_factor: Base,
        challenge: Base) -> (r: Result<bool, SchnorrError>) {
        let w_s = match mod_r_p(&weight_factor) {
            Ok(s) => s,
            Err(e) => { return Err(e) },
        };
        let e_s = match mod_r_p(&challenge) {
            Ok(s) => s,
            Err(e) => { return Err(e) },
        };
        let g = nk_generator();
        let lhs = g.scaled(&signature.response);
        let rhs = signature.commit.plus(&self.p.scaled(&w_s).scaled(&e_s));
        proof {
            use_type_invariant(&signature.response);
            lemma_small_mod(signature.response.val(), r_modulus());
        }
        Ok(lhs.equals(&rhs))
    }
}

} // verus!
