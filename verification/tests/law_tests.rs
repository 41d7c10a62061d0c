//! The stated properties of the protocol, on concrete values: determinism of
//! key derivation, soundness against corruption, the field bridge, weight
//! asymmetry, the fixed scenario, and the honesty of each arithmetic step.

use schnorr_agg::aggregate::{aggregate_key, combine, combine_signatures, verify_aggregate};
use schnorr_agg::field::{mod_r_p, random_scalar, Base, Scalar};
use schnorr_agg::hash::{compute_binding_hash, compute_challenge, compute_weight, poseidon_hash};
use schnorr_agg::protocol::schnorr_sequencer;
use schnorr_agg::schnorr::{
    nk_generator, PublicKey, SchnorrPublic, SchnorrSecret, SecretKey, Signature,
};
use schnorr_agg::SchnorrError;

/// Little-endian bytes of the scalar-field order: a canonical base-field
/// encoding, but not a canonical scalar-field encoding.
const R_ORDER_BYTES: [u8; 32] = [
    1, 0, 0, 240, 147, 245, 225, 67, 145, 112, 185, 121, 72, 232, 51, 40, 93, 88, 129, 129, 182,
    69, 80, 184, 41, 160, 49, 225, 114, 78, 100, 48,
];

#[test]
fn key_derivation_deterministic() {
    let k = SecretKey::random();
    let p1 = PublicKey::from_secret(k.clone());
    let p2 = PublicKey::from_secret(k);
    assert!(p1.inner().equals(&p2.inner()));
    let (x1, y1) = p1.inner().coordinates();
    let (x2, y2) = p2.inner().coordinates();
    assert_eq!(x1.to_bytes(), x2.to_bytes());
    assert_eq!(y1.to_bytes(), y2.to_bytes());
}

#[test]
fn single_party_soundness_message_flip() {
    let secret = SecretKey::random();
    let public = PublicKey::from_secret(secret.clone());
    let message: &[u8; 32] = &[1; 32];
    let signature = secret.sign(message).unwrap();
    assert!(public.verify(message, &signature).unwrap());

    let mut flipped = *message;
    flipped[0] ^= 1;
    assert!(!public.verify(&flipped, &signature).unwrap());
}

#[test]
fn single_party_soundness_commit_corruption() {
    let secret = SecretKey::random();
    let public = PublicKey::from_secret(secret.clone());
    let message: &[u8; 32] = &[1; 32];
    let signature = secret.sign(message).unwrap();

    let corrupted = Signature {
        commit: signature.commit.plus(&nk_generator()),
        response: signature.response,
    };
    assert!(!public.verify(message, &corrupted).unwrap());
}

#[test]
fn single_party_soundness_response_flip() {
    let secret = SecretKey::random();
    let public = PublicKey::from_secret(secret.clone());
    let message: &[u8; 32] = &[1; 32];
    let signature = secret.sign(message).unwrap();

    let mut response_bytes = signature.response.to_bytes();
    response_bytes[0] ^= 2;
    match Scalar::from_bytes(&response_bytes) {
        Ok(other) => {
            let corrupted = Signature { commit: signature.commit, response: other };
            assert!(!public.verify(message, &corrupted).unwrap());
        }
        // the flipped bytes are no scalar at all: rejected earlier
        Err(e) => assert!(matches!(e, SchnorrError::InvalidEncoding)),
    }
}

#[test]
fn field_bridge_roundtrip() {
    // a random scalar read as a base-field element and bridged back
    let s = random_scalar();
    let b = Base::from_bytes(&s.to_bytes()).unwrap();
    let s2 = mod_r_p(&b).unwrap();
    assert_eq!(s2.to_bytes(), b.to_bytes());
    assert_eq!(s2.to_bytes(), s.to_bytes());

    // a concrete value
    let b5 = Base::from_u64(5);
    assert_eq!(mod_r_p(&b5).unwrap().to_bytes(), Scalar::from_u64(5).to_bytes());
}

#[test]
fn field_bridge_violation_detected() {
    // the scalar order itself is a base-field element but not a scalar
    let b = Base::from_bytes(&R_ORDER_BYTES).unwrap();
    assert!(matches!(mod_r_p(&b), Err(SchnorrError::ConversionInvariantViolation)));

    // the same violation surfaces from partial signing
    let k = SecretKey::random();
    let r = k.sign_ext(&[0; 32], random_scalar(), Base::from_u64(1), b);
    assert!(matches!(r, Err(SchnorrError::ConversionInvariantViolation)));
}

#[test]
fn invalid_message_encoding_rejected() {
    let all_ones: [u8; 32] = [0xff; 32]; // above the base-field order
    let secret = SecretKey::random();
    let public = PublicKey::from_secret(secret.clone());
    assert!(matches!(secret.sign(&all_ones), Err(SchnorrError::InvalidEncoding)));
    let signature = Signature::dummy();
    assert!(matches!(
        public.verify(&all_ones, &signature),
        Err(SchnorrError::InvalidEncoding)
    ));
    assert!(matches!(schnorr_sequencer(&all_ones, 0), Err(SchnorrError::InvalidEncoding)));
}

#[test]
fn weighted_aggregation_random() {
    let k_u = SecretKey::random();
    let p_u = PublicKey::from_secret(k_u.clone());
    let k_s = SecretKey::random();
    let p_s = PublicKey::from_secret(k_s.clone());
    let r_u = random_scalar();
    let r_s = random_scalar();
    let big_r = nk_generator().scaled(&r_u).plus(&nk_generator().scaled(&r_s));

    let l = compute_binding_hash(&p_u.inner(), &p_s.inner());
    let w_u = compute_weight(&l, &p_u.inner());
    let w_s = compute_weight(&l, &p_s.inner());
    let x = aggregate_key(&p_u, &w_u, &p_s, &w_s).unwrap();

    let message: [u8; 32] = [7; 32];
    let message_base = Base::from_bytes(&message).unwrap();
    let index: u64 = 42;
    let e = compute_challenge(&big_r, &x.inner(), &message_base, &Base::from_u64(index));

    let sig_u = k_u.sign_ext(&message, r_u, w_u, e).unwrap();
    let sig_s = k_s.sign_ext(&message, r_s, w_s, e).unwrap();
    assert!(p_u.verify_ext(&message, &sig_u, w_u, e).unwrap());
    assert!(p_s.verify_ext(&message, &sig_s, w_s, e).unwrap());

    let sig = combine(&sig_u, &sig_s);
    assert!(verify_aggregate(&x, &message, index, &sig).unwrap());

    // the aggregate is bound to its index: another index is rejected
    assert!(!verify_aggregate(&x, &message, index + 1, &sig).unwrap());
}

#[test]
fn weighted_aggregation_equal_keys() {
    // both parties holding the same key must still aggregate soundly
    let k = SecretKey::random();
    let p = PublicKey::from_secret(k.clone());
    let r_u = random_scalar();
    let r_s = random_scalar();
    let big_r = nk_generator().scaled(&r_u).plus(&nk_generator().scaled(&r_s));

    let l = compute_binding_hash(&p.inner(), &p.inner());
    let w = compute_weight(&l, &p.inner());
    let x = aggregate_key(&p, &w, &p, &w).unwrap();

    let message: [u8; 32] = [0; 32];
    let message_base = Base::from_bytes(&message).unwrap();
    let e = compute_challenge(&big_r, &x.inner(), &message_base, &Base::from_u64(0));

    let sig_u = k.sign_ext(&message, r_u, w, e).unwrap();
    let sig_s = k.sign_ext(&message, r_s, w, e).unwrap();
    let sig = combine(&sig_u, &sig_s);
    assert!(verify_aggregate(&x, &message, 0, &sig).unwrap());
}

#[test]
fn weight_asymmetry() {
    let p_a = PublicKey::from_secret(SecretKey::from_scalar(Scalar::from_u64(1)));
    let p_b = PublicKey::from_secret(SecretKey::from_scalar(Scalar::from_u64(2)));

    let l_ab = compute_binding_hash(&p_a.inner(), &p_b.inner());
    let l_ba = compute_binding_hash(&p_b.inner(), &p_a.inner());
    assert_ne!(l_ab.to_bytes(), l_ba.to_bytes());

    let w_a = compute_weight(&l_ab, &p_a.inner());
    let w_a_swapped = compute_weight(&l_ba, &p_a.inner());
    assert_ne!(w_a.to_bytes(), w_a_swapped.to_bytes());
}

#[test]
fn concrete_scenario() {
    // fixed secrets 1 and 2, message of 32 zero bytes, index 0, nonces 3 and 4
    let k_u = SecretKey::from_scalar(Scalar::from_u64(1));
    let k_s = SecretKey::from_scalar(Scalar::from_u64(2));
    let p_u = PublicKey::from_secret(k_u.clone());
    let p_s = PublicKey::from_secret(k_s.clone());
    let r_u = Scalar::from_u64(3);
    let r_s = Scalar::from_u64(4);
    let big_r = nk_generator().scaled(&r_u).plus(&nk_generator().scaled(&r_s));

    let l = compute_binding_hash(&p_u.inner(), &p_s.inner());
    let w_u = compute_weight(&l, &p_u.inner());
    let w_s = compute_weight(&l, &p_s.inner());
    let x = aggregate_key(&p_u, &w_u, &p_s, &w_s).unwrap();

    let message: [u8; 32] = [0; 32];
    let message_base = Base::from_bytes(&message).unwrap();
    let e = compute_challenge(&big_r, &x.inner(), &message_base, &Base::from_u64(0));

    let sig_u = k_u.sign_ext(&message, r_u, w_u, e).unwrap();
    let sig_s = k_s.sign_ext(&message, r_s, w_s, e).unwrap();
    assert!(p_u.verify_ext(&message, &sig_u, w_u, e).unwrap());
    assert!(p_s.verify_ext(&message, &sig_s, w_s, e).unwrap());

    let sig = combine(&sig_u, &sig_s);
    assert!(verify_aggregate(&x, &message, 0, &sig).unwrap());

    // golden vectors, computed once from this fixture, to catch curve or
    // hash regressions
    let golden_binding: [u8; 32] = [
        203, 144, 163, 35, 82, 184, 154, 225, 229, 8, 182, 32, 169, 10, 97, 91, 5, 172, 202,
        223, 41, 38, 122, 156, 237, 0, 119, 26, 15, 210, 45, 25,
    ];
    let golden_w_u: [u8; 32] = [
        53, 204, 112, 227, 68, 226, 69, 38, 135, 7, 65, 109, 152, 242, 209, 41, 251, 141, 159,
        212, 246, 95, 109, 97, 143, 147, 52, 0, 93, 225, 86, 5,
    ];
    let golden_w_s: [u8; 32] = [
        11, 82, 59, 102, 168, 238, 109, 141, 93, 229, 4, 176, 238, 204, 35, 192, 168, 206, 37,
        80, 167, 122, 254, 59, 89, 176, 88, 150, 128, 201, 157, 2,
    ];
    let golden_challenge: [u8; 32] = [
        148, 215, 8, 115, 20, 101, 14, 29, 234, 124, 145, 242, 247, 113, 47, 175, 138, 119, 5,
        215, 152, 129, 98, 164, 84, 135, 33, 209, 185, 157, 245, 8,
    ];
    let golden_response: [u8; 32] = [
        48, 205, 20, 243, 208, 223, 42, 193, 181, 174, 7, 56, 190, 120, 230, 6, 218, 166, 199,
        180, 251, 129, 60, 247, 144, 83, 143, 26, 73, 112, 90, 1,
    ];
    assert_eq!(l.to_bytes(), golden_binding);
    assert_eq!(w_u.to_bytes(), golden_w_u);
    assert_eq!(w_s.to_bytes(), golden_w_s);
    assert_eq!(e.to_bytes(), golden_challenge);
    assert_eq!(sig.response.to_bytes(), golden_response);
}

#[test]
fn scalar_arithmetic_exact() {
    assert_eq!(
        Scalar::from_u64(2).added(&Scalar::from_u64(3)).to_bytes(),
        Scalar::from_u64(5).to_bytes()
    );
    assert_eq!(
        Scalar::from_u64(6).times(&Scalar::from_u64(7)).to_bytes(),
        Scalar::from_u64(42).to_bytes()
    );
    assert_eq!(
        Scalar::from_u64(5).minus(&Scalar::from_u64(3)).to_bytes(),
        Scalar::from_u64(2).to_bytes()
    );
    assert_eq!(
        combine_signatures(&Scalar::from_u64(20), &Scalar::from_u64(22)).to_bytes(),
        Scalar::from_u64(42).to_bytes()
    );
}

#[test]
fn generator_coordinates_exact() {
    let (x, y) = nk_generator().coordinates();
    assert_eq!(x.to_bytes(), Base::from_u64(1).to_bytes());
    assert_eq!(y.to_bytes(), Base::from_u64(2).to_bytes());
}

#[test]
fn point_operations_exact() {
    let g = nk_generator();
    let two_g = g.plus(&g);
    assert!(two_g.equals(&g.scaled(&Scalar::from_u64(2))));
    assert!(!two_g.equals(&g));
    assert!(g.plus(&schnorr_agg::group::Point::identity()).equals(&g));

    let dummy = Signature::dummy();
    assert!(dummy.commit.equals(&schnorr_agg::group::Point::identity()));
    assert_eq!(dummy.response.to_bytes(), Scalar::from_u64(0).to_bytes());
}

#[test]
fn hash_deterministic_and_moving() {
    let one = Base::from_u64(1);
    let h1 = poseidon_hash(vec![one, Base::from_u64(2)]);
    let h2 = poseidon_hash(vec![one, Base::from_u64(2)]);
    assert_eq!(h1.to_bytes(), h2.to_bytes());
    // the hash does not hand an input back
    let echo = poseidon_hash(vec![one]);
    assert_ne!(echo.to_bytes(), one.to_bytes());
    // signing depends on the nonce: same message, fresh nonce, new commitment
    let secret = SecretKey::random();
    let s1 = secret.sign(&[1; 32]).unwrap();
    let s2 = secret.sign(&[1; 32]).unwrap();
    assert!(!s1.commit.equals(&s2.commit));
}
