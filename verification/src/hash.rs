//! The algebraic sponge hash and the challenge derivation built on it.
//!
//! The hash compresses an ordered list of base-field elements into one
//! base-field element; order matters, which is what binds roles (the user's
//! key before the sequencer's key) into the derived values. The sponge
//! itself comes from an outside crate with fixed parameters; its output on a
//! given list only carries a name here, `sponge_hash_of`.

use vstd::prelude::*;

use crate::field::Base;
use crate::group::{point_coords, Point};
use halo2curves::bn256::Fq;
use neptune::sponge::api::IOPattern;
use neptune::sponge::api::SpongeAPI;
use neptune::sponge::api::SpongeOp;
use neptune::sponge::vanilla::Mode;
use neptune::sponge::vanilla::Sponge;
use neptune::sponge::vanilla::SpongeTrait;

verus! {

/// What the sponge hash returns on an ordered list of base-field values: a
/// deterministic, collision-resistant compression, named but not written out.
pub uninterp spec fn sponge_hash_of(inputs: Seq<nat>) -> nat;

/// The list of values a list of base-field elements denotes.
pub open spec fn vals_of(inputs: Seq<Base>) -> Seq<nat> {
    inputs.map_values(|b: Base| b.val())
}

/// Relies on the simplex sponge of neptune over the base field, arity 4,
/// fixed round parameters: one squeeze after absorbing the whole list is a
/// function of the input list alone, and an element of the field. The
/// sponge's operation counter holds the absorbed count in 31 bits, so the
/// input list must stay below that bound; every use here is a handful of
/// field elements.
#[verifier::external_body]
pub fn poseidon_hash(inputs: Vec<Base>) -> (r: Base)
    requires
        inputs@.len() >= 1,
        inputs@.len() < 0x8000_0000,
    ensures
        r.val() == sponge_hash_of(vals_of(inputs@)),
{
    let elems: Vec<Fq> = inputs.iter().map(|b| Fq::from_bytes(&b.bytes).unwrap()).collect();
    let cs = Sponge::<Fq, typenum::U4>::simplex_constants(elems.len());
    let mut sponge = Sponge::new_with_constants(&cs, Mode::Simplex);
    let acc = &mut ();
    sponge.start(
        IOPattern(vec![SpongeOp::Absorb(elems.len() as u32), SpongeOp::Squeeze(1)]),
        None,
        acc,
    );
    SpongeAPI::absorb(&mut sponge, elems.len() as u32, &elems, acc);
    let out = SpongeAPI::squeeze(&mut sponge, 1, acc);
    Base { bytes: out[0].to_bytes() }
}

/// The hash input that binds both public keys: the four affine coordinates
/// of the user's key, then the sequencer's, in that order.
pub open spec fn binding_input(a_dlog: nat, b_dlog: nat) -> Seq<nat> {
    seq![
        point_coords(a_dlog).0,
        point_coords(a_dlog).1,
        point_coords(b_dlog).0,
        point_coords(b_dlog).1,
    ]
}

/// The key-binding hash of both public keys, first input of each weight.
pub open spec fn binding_hash(a_dlog: nat, b_dlog: nat) -> nat {
    sponge_hash_of(binding_input(a_dlog, b_dlog))
}

/// The hash of a binding value followed by one party's key coordinates.
pub open spec fn weight_hash(binding: nat, own_dlog: nat) -> nat {
    sponge_hash_of(seq![binding, point_coords(own_dlog).0, point_coords(own_dlog).1])
}

/// The key-binding weight of one party: the hash of the binding hash of both
/// keys followed by that party's own key coordinates. Each party's weight
/// depends on both keys, so neither can bias the aggregate key.
pub open spec fn weight_of(a_dlog: nat, b_dlog: nat, own_dlog: nat) -> nat {
    weight_hash(binding_hash(a_dlog, b_dlog), own_dlog)
}

/// The Fiat-Shamir challenge: the hash of the combined public nonce, the
/// weighted aggregate key, the message and the sequencing index, in that
/// order, each point by its affine coordinates.
pub open spec fn challenge_of(r_dlog: nat, x_dlog: nat, msg: nat, index: nat) -> nat {
    sponge_hash_of(
        seq![
            point_coords(r_dlog).0,
            point_coords(r_dlog).1,
            point_coords(x_dlog).0,
            point_coords(x_dlog).1,
            msg,
            index,
        ],
    )
}

/// Computes the key-binding hash of the two public keys, user's first.
pub fn compute_binding_hash(pub_a: &Point, pub_b: &Point) -> (r: Base)
    ensures
        r.val() == binding_hash(pub_a.dlog(), pub_b.dlog()),
{
    let (ax, ay) = pub_a.coordinates();
    let (bx, by) = pub_b.coordinates();
    let mut v: Vec<Base> = Vec::new();
    v.push(ax);
    v.push(ay);
    v.push(bx);
    v.push(by);
    proof {
        assert(vals_of(v@) =~= binding_input(pub_a.dlog(), pub_b.dlog()));
    }
    poseidon_hash(v)
}

/// Computes one party's key-binding weight from the binding hash of both
/// keys and that party's own public key.
pub fn compute_weight(binding: &Base, own_key: &Point) -> (r: Base)
    ensures
        r.val() == weight_hash(binding.val(), own_key.dlog()),
{
    let (x, y) = own_key.coordinates();
    let mut v: Vec<Base> = Vec::new();
    v.push(*binding);
    v.push(x);
    v.push(y);
    proof {
        assert(vals_of(v@) =~= seq![
            binding.val(),
            point_coords(own_key.dlog()).0,
            point_coords(own_key.dlog()).1,
        ]);
    }
    poseidon_hash(v)
}

/// Computes the Fiat-Shamir challenge from the combined public nonce, the
/// aggregate key, the message and the sequencing index.
pub fn compute_challenge(nonce_sum: &Point, agg_key: &Point, message: &Base, index: &Base) -> (r:
    Base)
    ensures
        r.val() == challenge_of(nonce_sum.dlog(), agg_key.dlog(), message.val(), index.val()),
{
    let (rx, ry) = nonce_sum.coordinates();
    let (xx, xy) = agg_key.coordinates();
    let mut v: Vec<Base> = Vec::new();
    v.push(rx);
    v.push(ry);
    v.push(xx);
    v.push(xy);
    v.push(*message);
    v.push(*index);
    proof {
        assert(vals_of(v@) =~= seq![
            point_coords(nonce_sum.dlog()).0,
            point_coords(nonce_sum.dlog()).1,
            point_coords(agg_key.dlog()).0,
            point_coords(agg_key.dlog()).1,
            message.val(),
            index.val(),
        ]);
    }
    poseidon_hash(v)
}

} // verus!
