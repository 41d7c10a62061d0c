//! Single-party signing and the two-party weighted extension.

use schnorr_agg::aggregate::aggregate_key;
use schnorr_agg::field::{mod_r_p, Base};
use schnorr_agg::hash::{compute_binding_hash, compute_challenge, compute_weight};
use schnorr_agg::schnorr::{
    nk_generator, PublicKey, SchnorrPublic, SchnorrSecret, SecretKey, Signature,
};

#[test]
fn test_schnorr_sig() {
    let secret = SecretKey::random();
    let message: &[u8; 32] = &[1; 32];
    let signature = secret.sign(message).unwrap();
    let public = PublicKey::from_secret(secret);
    assert!(public.verify(message, &signature).unwrap());
}

#[test]
fn test_schnorr_sig_ext() {
    // User
    let k_u = SecretKey::random();
    let p_u = PublicKey::from_secret(k_u.clone());
    let r_u = SecretKey::random().inner(); // random nonce
    // Sequencer
    let k_s = SecretKey::random();
    let p_s = PublicKey::from_secret(k_s.clone());
    let r_s = SecretKey::random().inner(); // random nonce

    // public nonces and their combination
    let big_r_u = nk_generator().scaled(&r_u);
    let big_r_s = nk_generator().scaled(&r_s);
    let big_r = big_r_u.plus(&big_r_s);

    // key binding and weights
    let l = compute_binding_hash(&p_u.inner(), &p_s.inner());
    let w_u = compute_weight(&l, &p_u.inner());
    let w_s = compute_weight(&l, &p_s.inner());

    let message: &[u8; 32] = &[1; 32];
    let message_base = Base::from_bytes(message).unwrap();

    // weighted aggregate key and challenge with index 0
    let x = aggregate_key(&p_u, &w_u, &p_s, &w_s).unwrap();
    let e = compute_challenge(&big_r, &x.inner(), &message_base, &Base::from_u64(0));

    let signature_u = k_u.sign_ext(message, r_u, w_u, e).unwrap();
    assert!(p_u.verify_ext(message, &signature_u, w_u, e).unwrap());

    let signature_s = k_s.sign_ext(message, r_s, w_s, e).unwrap();
    assert!(p_s.verify_ext(message, &signature_s, w_s, e).unwrap());

    // full schnorr signature
    let signature = Signature {
        response: signature_s.response.added(&signature_u.response),
        commit: signature_s.commit.plus(&signature_u.commit),
    };

    // (s - s_u) * G == (R - R_u) + e (X - w_u * P_u)
    let left = nk_generator().scaled(&signature.response.minus(&signature_u.response));
    let w_u_scalar = mod_r_p(&w_u).unwrap();
    let e_scalar = mod_r_p(&e).unwrap();
    let right = signature
        .commit
        .minus(&signature_u.commit)
        .plus(&x.inner().minus(&p_u.inner().scaled(&w_u_scalar)).scaled(&e_scalar));
    assert!(left.equals(&right));
}
