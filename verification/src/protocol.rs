//! The two-party protocol run end to end: key generation, nonce exchange,
//! key binding, aggregation, the shared challenge, both partial signatures,
//! their combination, and the aggregate check.

use vstd::prelude::*;

use crate::aggregate::{aggregate_dlog, aggregate_key, combine, combine_nonces, verify_aggregate};
use crate::field::{le_val, q_modulus, r_modulus, random_scalar, Base, Scalar};
use crate::hash::{challenge_of, compute_binding_hash, compute_challenge, compute_weight, weight_of};
use crate::laws::lemma_weighted_aggregation_sound;
use crate::schnorr::{
    nk_generator, partial_response, schnorr_holds, PublicKey, SchnorrSecret, SecretKey,
    SharedValue, Signature,
};
use crate::SchnorrError;

verus! {

/// Generates a fresh key pair: a uniformly random secret and the public key
/// derived from it.
pub fn gen_key_pair() -> (r: (SecretKey, PublicKey))
    ensures
        r.1.dlog() == r.0.val(),
{
    let sk = SecretKey::random();
    let pk = PublicKey::from_secret(sk);
    (sk, pk)
}

/// A vector of fresh uniformly random scalars, one independent draw each.
pub fn rand_vec_scalar(size: usize) -> (r: Vec<Scalar>)
    ensures
        r@.len() == size,
        forall|i: int| 0 <= i < size ==> #[trigger] r@[i].val() < r_modulus(),
{
    let mut result: Vec<Scalar> = Vec::new();
    let mut i: usize = 0;
    while i < size
        invariant
            i <= size,
            result@.len() == i,
            forall|j: int| 0 <= j < i ==> #[trigger] result@[j].val() < r_modulus(),
        decreases size - i,
    {
        result.push(random_scalar());
        i = i + 1;
    }
    result
}

/// What one completed session leaves behind: there were reduced secrets
/// `ku`, `ks` and nonces `ru`, `rs` such that the signature's commitment is
/// the combined nonce, its response is the sum of the two weighted partial
/// responses under the session's own weights and challenge, and the flag is
/// the aggregate acceptance condition `sG == R + eX` on those values.
pub open spec fn session_outcome(
    sig: Signature,
    flag: bool,
    msg: nat,
    index: nat,
    ku: nat,
    ks: nat,
    ru: nat,
    rs: nat,
) -> bool {
    let wu = weight_of(ku, ks, ku);
    let ws = weight_of(ku, ks, ks);
    let xd = aggregate_dlog(ku, wu, ks, ws);
    let rd = (ru + rs) % r_modulus();
    let ch = challenge_of(rd, xd, msg, index);
    &&& ku < r_modulus() && ks < r_modulus() && ru < r_modulus() && rs < r_modulus()
    &&& sig.commit.dlog() == rd
    &&& sig.response.val() == (partial_response(ku, ru, wu, ch) + partial_response(
        ks,
        rs,
        ws,
        ch,
    )) % r_modulus()
    &&& flag == schnorr_holds(xd, rd, sig.response.val(), ch)
}

/// A signature and flag that some session explains: secrets and nonces exist
/// whose session outcome they are.
pub open spec fn is_session_outcome(sig: Signature, flag: bool, msg: nat, index: nat) -> bool {
    exists|ku: nat, ks: nat, ru: nat, rs: nat|
        session_outcome(sig, flag, msg, index, ku, ks, ru, rs)
}

/// Runs a whole two-party signing session on one message and one sequencing
/// index: generates both key pairs and both nonces, binds the keys, builds
/// the weighted aggregate key, derives the shared challenge, has each party
/// sign its part, combines, and checks the aggregate. When the run completes,
/// the returned pair is a full session outcome for the values that were
/// drawn, and the aggregate signature passes the check: the flag is true.
pub fn schnorr_sequencer(message: &[u8; 32], index: u64) -> (r: Result<
    (Signature, bool),
    SchnorrError,
>)
    ensures
        le_val(message@) >= q_modulus() ==> r is Err,
        r matches Err(e) ==> (e == SchnorrError::InvalidEncoding <==> le_val(message@)
            >= q_modulus()),
        r matches Ok(p) ==> is_session_outcome(p.0, p.1, le_val(message@), index as nat),
        r matches Ok(p) ==> p.1 == true,
{
    let message_base = match Base::from_bytes(message) {
        Ok(b) => b,
        Err(e) => { return Err(e) },
    };

    // Round 0: each party draws its long-term key and its session nonce.
    let k_u = SecretKey::random();
    let p_u = PublicKey::from_secret(k_u);
    let k_s = SecretKey::random();
    let p_s = PublicKey::from_secret(k_s);
    let r_u = random_scalar();
    let r_s = random_scalar();
    let g = nk_generator();
    let big_r_u = g.scaled(&r_u);
    let big_r_s = g.scaled(&r_s);
    proof {
        use_type_invariant(&r_u);
        use_type_invariant(&r_s);
        vstd::arithmetic::div_mod::lemma_small_mod(r_u.val(), r_modulus());
        vstd::arithmetic::div_mod::lemma_small_mod(r_s.val(), r_modulus());
    }

    // Round 1: keys and public nonces are exchanged; both parties now agree
    // on the combined nonce, the weights, the aggregate key and the
    // challenge, which also commits the message to the index.
    let big_r = combine_nonces(&big_r_u, &big_r_s);
    let l = compute_binding_hash(&p_u.inner(), &p_s.inner());
    let w_u = compute_weight(&l, &p_u.inner());
    let w_s = compute_weight(&l, &p_s.inner());
    let x = match aggregate_key(&p_u, &w_u, &p_s, &w_s) {
        Ok(x) => x,
        Err(e) => { return Err(e) },
    };
    let index_base = Base::from_u64(index);
    let e = compute_challenge(&big_r, &x.inner(), &message_base, &index_base);
    let shared = SharedValue { hash_pubs: l, challenge: e };

    // Round 2: each party computes its partial response locally.
    let sig_u = match k_u.sign_ext(message, r_u, w_u, shared.challenge) {
        Ok(s) => s,
        Err(err) => { return Err(err) },
    };
    let sig_s = match k_s.sign_ext(message, r_s, w_s, shared.challenge) {
        Ok(s) => s,
        Err(err) => { return Err(err) },
    };

    // The combination is one Schnorr signature under the aggregate key.
    let sig = combine(&sig_u, &sig_s);
    proof {
        lemma_weighted_aggregation_sound(
            k_u.val(),
            k_s.val(),
            r_u.val(),
            r_s.val(),
            w_u.val(),
            w_s.val(),
            e.val(),
        );
    }
    let ok = match verify_aggregate(&x, message, index, &sig) {
        Ok(b) => b,
        Err(err) => { return Err(err) },
    };
    proof {
        assert(session_outcome(
            sig,
            ok,
            le_val(message@),
            index as nat,
            k_u.val(),
            k_s.val(),
            r_u.val(),
            r_s.val(),
        ));
        assert(is_session_outcome(sig, ok, le_val(message@), index as nat));
    }
    Ok((sig, ok))
}

} // verus!
