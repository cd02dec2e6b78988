//! The Ristretto255 group of `curve25519_dalek`: scalars modulo its prime
//! order `ℓ`, and group elements held by their canonical 32-byte encodings.
//!
//! The group is cyclic of prime order `ℓ` and generated by the basepoint, so
//! every element is `x·B` for exactly one `x` in `[0, ℓ)`: its discrete
//! logarithm. The contracts of the group operations are stated over that
//! logarithm.

use crate::arith::{le_value, lemma_pow256_monotonic, pow256};
use curve25519_dalek::traits::Identity;
use vstd::prelude::*;

verus! {

/// The order of the Ristretto group, `ℓ = 2^252 + 27742317777372353535851937790883648493`.
pub open spec fn group_order() -> nat {
    7237005577332262213973186563042994240857116359379907606001950938285454250989nat
}

/// An integer modulo `ℓ`, held as the 32 little-endian bytes of its canonical representative.
#[derive(Clone, Copy, Debug)]
pub struct GroupScalar {
    pub bytes: [u8; 32],
}

impl View for GroupScalar {
    type V = nat;

    open spec fn view(&self) -> nat {
        le_value(self.bytes@)
    }
}

impl GroupScalar {
    /// The scalar is the canonical representative of its class modulo `ℓ`.
    pub open spec fn wf(&self) -> bool {
        self@ < group_order()
    }
}

/// A Ristretto group element, held as its canonical 32-byte encoding.
#[derive(Clone, Copy, Debug)]
pub struct GroupElement {
    pub enc: [u8; 32],
}

/// The discrete logarithm, base the Ristretto basepoint, of the group element
/// whose canonical encoding is `enc`.
pub uninterp spec fn ristretto_log(enc: Seq<u8>) -> nat;

/// `CompressedRistretto(enc).decompress()` succeeds: `enc` is the canonical
/// encoding of a group element.
pub uninterp spec fn ristretto_decodes(enc: Seq<u8>) -> bool;

/// The encoding of `RistrettoPoint::hash_from_bytes::<Sha512>(msg)`.
pub uninterp spec fn ristretto_hash_from_bytes(msg: Seq<char>) -> Seq<u8>;

impl GroupElement {
    /// The element's bytes are a canonical encoding, with its logarithm below `ℓ`.
    pub open spec fn wf(&self) -> bool {
        ristretto_decodes(self.enc@) && ristretto_log(self.enc@) < group_order()
    }

    /// The discrete logarithm of this element.
    pub open spec fn log(&self) -> nat {
        ristretto_log(self.enc@)
    }
}

/// `Scalar::from(u64)`: the scalar `n`.
#[verifier::external_body]
pub(crate) fn scalar_from_u64(n: u64) -> (r: GroupScalar)
    ensures
        r.wf(),
        r@ == n,
{
    GroupScalar { bytes: curve25519_dalek::Scalar::from(n).to_bytes() }
}

/// `Scalar::from_bytes_mod_order_wide`: the 64-byte little-endian number reduced modulo `ℓ`.
#[verifier::external_body]
pub(crate) fn scalar_from_bytes_wide(input: &[u8; 64]) -> (r: GroupScalar)
    ensures
        r.wf(),
        r@ == le_value(input@) % group_order(),
{
    GroupScalar { bytes: curve25519_dalek::Scalar::from_bytes_mod_order_wide(input).to_bytes() }
}

/// `Scalar::random` with the operating system's generator: some scalar.
#[verifier::external_body]
pub(crate) fn scalar_random() -> (r: GroupScalar)
    ensures
        r.wf(),
{
    let mut csprng = rand::rngs::OsRng;
    GroupScalar { bytes: curve25519_dalek::Scalar::random(&mut csprng).to_bytes() }
}

/// Scalar addition modulo `ℓ`.
#[verifier::external_body]
pub(crate) fn scalar_add(a: &GroupScalar, b: &GroupScalar) -> (r: GroupScalar)
    requires
        a.wf(),
        b.wf(),
    ensures
        r.wf(),
        r@ == (a@ + b@) % group_order(),
{
    let x = curve25519_dalek::Scalar::from_bytes_mod_order(a.bytes);
    let y = curve25519_dalek::Scalar::from_bytes_mod_order(b.bytes);
    GroupScalar { bytes: (x + y).to_bytes() }
}

/// Scalar subtraction modulo `ℓ`.
#[verifier::external_body]
pub(crate) fn scalar_sub(a: &GroupScalar, b: &GroupScalar) -> (r: GroupScalar)
    requires
        a.wf(),
        b.wf(),
    ensures
        r.wf(),
        r@ == (a@ + group_order() - b@) % (group_order() as int),
{
    let x = curve25519_dalek::Scalar::from_bytes_mod_order(a.bytes);
    let y = curve25519_dalek::Scalar::from_bytes_mod_order(b.bytes);
    GroupScalar { bytes: (x - y).to_bytes() }
}

/// Scalar multiplication modulo `ℓ`.
#[verifier::external_body]
pub(crate) fn scalar_mul(a: &GroupScalar, b: &GroupScalar) -> (r: GroupScalar)
    requires
        a.wf(),
        b.wf(),
    ensures
        r.wf(),
        r@ == (a@ * b@) % group_order(),
{
    let x = curve25519_dalek::Scalar::from_bytes_mod_order(a.bytes);
    let y = curve25519_dalek::Scalar::from_bytes_mod_order(b.bytes);
    GroupScalar { bytes: (x * y).to_bytes() }
}

/// Scalar negation modulo `ℓ`.
#[verifier::external_body]
pub(crate) fn scalar_neg(a: &GroupScalar) -> (r: GroupScalar)
    requires
        a.wf(),
    ensures
        r.wf(),
        r@ == (group_order() - a@) % (group_order() as int),
{
    let x = curve25519_dalek::Scalar::from_bytes_mod_order(a.bytes);
    GroupScalar { bytes: (-x).to_bytes() }
}

/// `Scalar::invert`: the multiplicative inverse modulo `ℓ` of a nonzero
/// scalar. Nothing is stated of the result for zero, which the
/// documentation forbids.
#[verifier::external_body]
pub(crate) fn scalar_invert(a: &GroupScalar) -> (r: GroupScalar)
    requires
        a.wf(),
    ensures
        r.wf(),
        a@ != 0 ==> (a@ * r@) % group_order() == 1,
{
    let x = curve25519_dalek::Scalar::from_bytes_mod_order(a.bytes);
    GroupScalar { bytes: x.invert().to_bytes() }
}

/// Scalar equality.
#[verifier::external_body]
pub(crate) fn scalar_eq(a: &GroupScalar, b: &GroupScalar) -> (r: bool)
    requires
        a.wf(),
        b.wf(),
    ensures
        r == (a@ == b@),
{
    let x = curve25519_dalek::Scalar::from_bytes_mod_order(a.bytes);
    let y = curve25519_dalek::Scalar::from_bytes_mod_order(b.bytes);
    x == y
}

/// The Ristretto basepoint `B`, whose logarithm is 1.
#[verifier::external_body]
pub(crate) fn basepoint() -> (r: GroupElement)
    ensures
        r.wf(),
        ristretto_log(r.enc@) == 1,
{
    let p = curve25519_dalek::constants::RISTRETTO_BASEPOINT_POINT;
    GroupElement { enc: p.compress().to_bytes() }
}

/// The identity element, whose logarithm is 0 and whose encoding is 32 zero bytes.
#[verifier::external_body]
pub(crate) fn identity() -> (r: GroupElement)
    ensures
        r.wf(),
        ristretto_log(r.enc@) == 0,
        r.enc@ == Seq::new(32, |i: int| 0u8),
{
    GroupElement { enc: curve25519_dalek::RistrettoPoint::identity().compress().to_bytes() }
}

/// `RistrettoPoint::hash_from_bytes::<Sha512>` of the bytes of `msg`.
#[verifier::external_body]
pub(crate) fn hash_to_group(msg: &str) -> (r: GroupElement)
    ensures
        r.wf(),
        r.enc@ == ristretto_hash_from_bytes(msg@),
{
    let p = curve25519_dalek::RistrettoPoint::hash_from_bytes::<sha2::Sha512>(msg.as_bytes());
    GroupElement { enc: p.compress().to_bytes() }
}

/// Group addition: the logarithms add modulo `ℓ`.
#[verifier::external_body]
pub(crate) fn point_add(a: &GroupElement, b: &GroupElement) -> (r: GroupElement)
    requires
        a.wf(),
        b.wf(),
    ensures
        r.wf(),
        ristretto_log(r.enc@) == (ristretto_log(a.enc@) + ristretto_log(b.enc@)) % group_order(),
{
    let x = curve25519_dalek::ristretto::CompressedRistretto(a.enc).decompress().unwrap();
    let y = curve25519_dalek::ristretto::CompressedRistretto(b.enc).decompress().unwrap();
    GroupElement { enc: (x + y).compress().to_bytes() }
}

/// Scalar multiplication of a group element: the logarithm is multiplied modulo `ℓ`.
#[verifier::external_body]
pub(crate) fn point_mul(p: &GroupElement, s: &GroupScalar) -> (r: GroupElement)
    requires
        p.wf(),
        s.wf(),
    ensures
        r.wf(),
        ristretto_log(r.enc@) == (ristretto_log(p.enc@) * s@) % group_order(),
{
    let x = curve25519_dalek::ristretto::CompressedRistretto(p.enc).decompress().unwrap();
    let k = curve25519_dalek::Scalar::from_bytes_mod_order(s.bytes);
    GroupElement { enc: (x * k).compress().to_bytes() }
}

/// Equality of group elements: equal exactly when their logarithms are, and
/// exactly when their canonical encodings are.
#[verifier::external_body]
pub(crate) fn point_eq(a: &GroupElement, b: &GroupElement) -> (r: bool)
    requires
        a.wf(),
        b.wf(),
    ensures
        r == (ristretto_log(a.enc@) == ristretto_log(b.enc@)),
        r == (a.enc@ == b.enc@),
{
    let x = curve25519_dalek::ristretto::CompressedRistretto(a.enc).decompress().unwrap();
    let y = curve25519_dalek::ristretto::CompressedRistretto(b.enc).decompress().unwrap();
    x == y
}

/// `CompressedRistretto::decompress`: the element encoded by `bytes`, when
/// they are a canonical encoding.
#[verifier::external_body]
pub(crate) fn point_decode(bytes: [u8; 32]) -> (r: Option<GroupElement>)
    ensures
        r is Some <==> ristretto_decodes(bytes@),
        r matches Some(g) ==> g.enc == bytes && g.wf(),
{
    match curve25519_dalek::ristretto::CompressedRistretto(bytes).decompress() {
        Some(_) => Some(GroupElement { enc: bytes }),
        None => None,
    }
}

/// `ℓ < 2^256`.
pub proof fn lemma_group_order_bound()
    ensures
        group_order() < pow256(32),
        group_order() < pow256(64),
{
    assert(pow256(32)
        == 115792089237316195423570985008687907853269984665640564039457584007913129639936nat) by {
        reveal_with_fuel(pow256, 33);
    }
    lemma_pow256_monotonic(32, 64);
}

} // verus!
