//! The laws of the protocol, each a proved statement over the same
//! specification functions the executable contracts use.

use vstd::arithmetic::div_mod::{
    lemma_add_mod_noop,
    lemma_add_mod_noop_right,
    lemma_mul_mod_noop_general,
};
use vstd::arithmetic::mul::lemma_mul_is_distributive_add_other_way;
use vstd::prelude::*;

use crate::aggregate::aggregate_dlog;
use crate::field::r_modulus;
use crate::schnorr::{partial_holds, partial_response, schnorr_holds, single_challenge};

verus! {

/// Single-party correctness: a signature formed as `sign` forms it, with the
/// challenge hashed from its own commitment and the message, meets the
/// acceptance condition that `verify` decides for the matching public key
/// and the same message.
pub proof fn lemma_single_party_correctness(key: nat, commit_dlog: nat, response: nat, msg: nat)
    requires
        response == (commit_dlog + (single_challenge(commit_dlog, msg) * key) % r_modulus())
            % r_modulus(),
    ensures
        schnorr_holds(key, commit_dlog, response, single_challenge(commit_dlog, msg)),
{
    let e = single_challenge(commit_dlog, msg);
    assert(e * key == key * e);
}

/// Single-party soundness, response direction: a signature that is accepted
/// stops being accepted when its response changes to any other value, the
/// rest held fixed.
pub proof fn lemma_response_change_rejected(
    pk_dlog: nat,
    commit_dlog: nat,
    response: nat,
    other: nat,
    e: nat,
)
    requires
        schnorr_holds(pk_dlog, commit_dlog, response, e),
        other != response,
    ensures
        !schnorr_holds(pk_dlog, commit_dlog, other, e),
{
}

/// Partial correctness: a partial signature formed as `sign_ext` forms it
/// meets the acceptance condition that `verify_ext` decides for the matching
/// public key, the same weight factor and the same challenge.
pub proof fn lemma_partial_correctness(key: nat, nonce: nat, w: nat, e: nat)
    ensures
        partial_holds(key, nonce, partial_response(key, nonce, w, e), w, e),
{
}

/// Weighted aggregation soundness: for any two keys, nonces and weights and
/// any challenge, the sum of the two partial responses, against the sum of
/// the two nonces and the weighted aggregate key, meets the aggregate
/// acceptance condition `sG == R + eX` that `verify_aggregate` decides.
pub proof fn lemma_weighted_aggregation_sound(
    k_a: nat,
    k_b: nat,
    r_a: nat,
    r_b: nat,
    w_a: nat,
    w_b: nat,
    e: nat,
)
    ensures
        schnorr_holds(
            aggregate_dlog(k_a, w_a, k_b, w_b),
            (r_a + r_b) % r_modulus(),
            (partial_response(k_a, r_a, w_a, e) + partial_response(k_b, r_b, w_b, e))
                % r_modulus(),
            e,
        ),
{
    let m = r_modulus() as int;
    let s_a = partial_response(k_a, r_a, w_a, e) as int;
    let s_b = partial_response(k_b, r_b, w_b, e) as int;
    let ei = e as int;
    let prod_a = (k_a as int) * (w_a as int);
    let prod_b = (k_b as int) * (w_b as int);

    // Each partial response equals its unreduced sum, modulo the order.
    lemma_mul_mod_noop_general(prod_a, ei, m);
    lemma_add_mod_noop_right(r_a as int, prod_a * ei, m);
    assert(s_a == (r_a + prod_a * ei) % m);
    lemma_mul_mod_noop_general(prod_b, ei, m);
    lemma_add_mod_noop_right(r_b as int, prod_b * ei, m);
    assert(s_b == (r_b + prod_b * ei) % m);

    // So does their combination.
    lemma_add_mod_noop(r_a + prod_a * ei, r_b + prod_b * ei, m);
    assert((s_a + s_b) % m == (r_a + prod_a * ei + r_b + prod_b * ei) % m);

    // The aggregate key is the unreduced weighted sum, modulo the order.
    let x = aggregate_dlog(k_a, w_a, k_b, w_b) as int;
    lemma_add_mod_noop(prod_a, prod_b, m);
    assert(x == (prod_a + prod_b) % m);

    // The right-hand side of the acceptance condition is the same sum.
    lemma_mul_mod_noop_general(prod_a + prod_b, ei, m);
    assert((x * ei) % m == ((prod_a + prod_b) * ei) % m);
    lemma_mul_is_distributive_add_other_way(ei, prod_a, prod_b);
    assert((prod_a + prod_b) * ei == prod_a * ei + prod_b * ei);
    lemma_add_mod_noop((r_a + r_b) as int, prod_a * ei + prod_b * ei, m);
    assert((((r_a + r_b) as int) % m + (x * ei) % m) % m == (r_a + r_b + prod_a * ei + prod_b * ei)
        % m);
}

} // verus!
