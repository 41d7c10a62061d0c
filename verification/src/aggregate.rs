//! The aggregator: weighted aggregate keys, combined nonces and combined
//! signatures, and the verification of the aggregate.
//!
//! The canonical verification order here is the full aggregate check
//! `sG == R + eX`: both partial equations may also be checked one by one
//! through `verify_ext`, and the two agree by the aggregation-soundness law.

use vstd::arithmetic::div_mod::lemma_small_mod;
use vstd::prelude::*;

use crate::field::{le_val, mod_r_p, q_modulus, r_modulus, Base, Scalar};
use crate::group::Point;
use crate::hash::{challenge_of, compute_challenge};
use crate::schnorr::{nk_generator, schnorr_holds, PublicKey, Signature};
use crate::SchnorrError;

verus! {

/// The discrete logarithm of the weighted aggregate key
/// `X = w_a·P_a + w_b·P_b`, with each product reduced as it is taken.
pub open spec fn aggregate_dlog(pa: nat, wa: nat, pb: nat, wb: nat) -> nat {
    (((pa * wa) % r_modulus()) + ((pb * wb) % r_modulus())) % r_modulus()
}

/// Combines the two public keys into the weighted aggregate key: each key is
/// multiplied by its own party's weight, never the other's, and the weighted
/// keys are added. Fails if a weight has no scalar reading.
pub fn aggregate_key(pub_a: &PublicKey, w_a: &Base, pub_b: &PublicKey, w_b: &Base) -> (r: Result<
    PublicKey,
    SchnorrError,
>)
    ensures
        r is Ok <==> (w_a.val() < r_modulus() && w_b.val() < r_modulus()),
        r matches Err(e) ==> e == SchnorrError::ConversionInvariantViolation,
        r matches Ok(x) ==> x.dlog() == aggregate_dlog(
            pub_a.dlog(),
            w_a.val(),
            pub_b.dlog(),
            w_b.val(),
        ),
{
    let wa_s = match mod_r_p(w_a) {
        Ok(s) => s,
        Err(e) => { return Err(e) },
    };
    let wb_s = match mod_r_p(w_b) {
        Ok(s) => s,
        Err(e) => { return Err(e) },
    };
    let x = pub_a.inner().scaled(&wa_s).plus(&pub_b.inner().scaled(&wb_s));
    Ok(PublicKey::from_point(x))
}

/// Combines the two public nonces: `R = R_a + R_b`.
pub fn combine_nonces(r_a: &Point, r_b: &Point) -> (r: Point)
    ensures
        r.dlog() == (r_a.dlog() + r_b.dlog()) % r_modulus(),
{
    r_a.plus(r_b)
}

/// Combines the two partial responses: `s = s_a + s_b` in the scalar field.
pub fn combine_signatures(s_a: &Scalar, s_b: &Scalar) -> (r: Scalar)
    ensures
        r.val() == (s_a.val() + s_b.val()) % r_modulus(),
{
    s_a.added(s_b)
}

/// Combines two partial signatures into the aggregate signature: the nonce
/// commitments are added on the curve, the responses in the scalar field.
pub fn combine(sig_a: &Signature, sig_b: &Signature) -> (r: Signature)
    ensures
        r.commit.dlog() == (sig_a.commit.dlog() + sig_b.commit.dlog()) % r_modulus(),
        r.response.val() == (sig_a.response.val() + sig_b.response.val()) % r_modulus(),
{
    Signature {
        commit: combine_nonces(&sig_a.commit, &sig_b.commit),
        response: combine_signatures(&sig_a.response, &sig_b.response),
    }
}

/// Checks an aggregate signature against the weighted aggregate key: derives
/// the challenge from the combined commitment, the aggregate key, the
/// message and the sequencing index, and decides `sG == R + eX`. Rejection
/// is the `false` value, not an error.
pub fn verify_aggregate(x: &PublicKey, message: &[u8; 32], index: u64, signature: &Signature)
    -> (r: Result<bool, SchnorrError>)
    ensures
        r is Ok <==> (le_val(message@) < q_modulus() && challenge_of(
            signature.commit.dlog(),
            x.dlog(),
            le_val(message@),
            index as nat,
        ) < r_modulus()),
        r matches Err(e) ==> (e == SchnorrError::InvalidEncoding <==> le_val(message@)
            >= q_modulus()),
        r matches Ok(b) ==> b == schnorr_holds(
            x.dlog(),
            signature.commit.dlog(),
            signature.response.val(),
            challenge_of(signature.commit.dlog(), x.dlog(), le_val(message@), index as nat),
        ),
{
    let message_base = match Base::from_bytes(message) {
        Ok(b) => b,
        Err(e) => { return Err(e) },
    };
    let index_base = Base::from_u64(index);
    let e = compute_challenge(&signature.commit, &x.inner(), &message_base, &index_base);
    let e_s = match mod_r_p(&e) {
        Ok(s) => s,
        Err(e) => { return Err(e) },
    };
    let g = nk_generator();
    let lhs = g.scaled(&signature.response);
    let rhs = signature.commit.plus(&x.inner().scaled(&e_s));
    proof {
        use_type_invariant(&signature.response);
        lemma_small_mod(signature.response.val(), r_modulus());
    }
    Ok(lhs.equals(&rhs))
}

} // verus!
