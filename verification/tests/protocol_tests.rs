//! Key generation, hashing, field conversion, the sequencer flow, and the
//! laws of scalar multiplication on the curve.

use schnorr_agg::field::{mod_r_p, random_scalar, Base, Scalar};
use schnorr_agg::group::Point;
use schnorr_agg::hash::poseidon_hash;
use schnorr_agg::protocol::{gen_key_pair, rand_vec_scalar, schnorr_sequencer};
use schnorr_agg::schnorr::nk_generator;

#[test]
fn test_gen_key() {
    let keys = gen_key_pair();
    let (key_x, key_y) = keys.1.inner().coordinates();
    println!("public key x: {:?}, y: {:?}", key_x.to_bytes(), key_y.to_bytes());
}

#[test]
fn test_poseidon_hash() {
    let inputs: Vec<Base> = (0..2)
        .map(|_| Base::from_bytes(&random_scalar().to_bytes()).unwrap())
        .collect();

    let p_hash = poseidon_hash(inputs);

    println!("poseidon hash : {:?}", p_hash.to_bytes());
}

#[test]
fn test_conversion() {
    let fr_val = random_scalar();
    let g = nk_generator();

    let tmp = g.scaled(&fr_val);
    // scalar -> base always succeeds: the scalar order is below the base order
    let tmp_fq = Base::from_bytes(&fr_val.to_bytes()).unwrap();
    // and back again, losslessly
    let tmp_fr = mod_r_p(&tmp_fq).unwrap();
    let tmp_verify = g.scaled(&tmp_fr);

    println!("{:?}", tmp.coordinates().0.to_bytes());
    println!("{:?}", tmp_verify.coordinates().0.to_bytes());
    assert!(tmp.equals(&tmp_verify));
}

#[test]
fn test_schnorr_sequencer() {
    // transaction (message): the hash of a point's coordinates
    let k = random_scalar();
    let point = nk_generator().scaled(&k);
    let (mx, my) = point.coordinates();
    let message = poseidon_hash(vec![mx, my]).to_bytes();

    let (signature, ok) = schnorr_sequencer(&message, 0).unwrap();
    println!(
        "full signature : s = {:?}, R = {:?}",
        signature.response.to_bytes(),
        signature.commit.coordinates().0.to_bytes()
    );
    assert!(ok);
}

#[test]
fn test_multiplication() {
    let s1 = random_scalar();
    let s2 = random_scalar();

    let t0 = Point::identity().scaled(&s1);
    assert!(t0.equals(&Point::identity()));

    let k = random_scalar();
    let a = nk_generator().scaled(&k);
    let t0 = a.scaled(&Scalar::from_u64(1));
    assert!(a.equals(&t0));

    let t0 = a.scaled(&Scalar::from_u64(0));
    assert!(t0.equals(&Point::identity()));

    let t0 = a.scaled(&s1).plus(&a.scaled(&s2));
    let s3 = s1.added(&s2);
    let t1 = a.scaled(&s3);
    assert!(t0.equals(&t1));

    let mut t0 = a.scaled(&s1);
    let t1 = a.scaled(&s2);
    t0 = t0.plus(&t1);
    let s3 = s1.added(&s2);
    let t1 = a.scaled(&s3);
    assert!(t0.equals(&t1));
}

#[test]
fn halo2_test() {
    let vsc = rand_vec_scalar(3);
    println!("{:?}", vsc.iter().map(|s| s.to_bytes()).collect::<Vec<[u8; 32]>>());
}
