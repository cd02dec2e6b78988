//! Conversions between big integers and Ristretto scalars and group elements.

use crate::arith::{
    le_bytes_fixed, le_value, lemma_le_value_bound, lemma_le_value_high_zero,
    lemma_le_value_injective, lemma_le_value_last_nonzero, lemma_le_value_split,
    lemma_le_value_take_mod, lemma_le_value_zero_extend, lemma_pow256_monotonic, pow256,
};
use crate::bignum::{decimal_string, ubig_add, ubig_rem, ubig_to_decimal, UBig};
use crate::group::{
    group_order, lemma_group_order_bound, point_decode, ristretto_decodes, scalar_from_bytes_wide,
    scalar_from_u64, scalar_neg, GroupElement,
    GroupScalar,
};
use vstd::arithmetic::div_mod::*;
use vstd::prelude::*;

verus! {

/// Copies `src` into a fresh vector.
fn bytes_to_vec(src: &[u8; 32]) -> (r: Vec<u8>)
    ensures
        r@ == src@,
{
    let mut v: Vec<u8> = Vec::new();
    let mut i: usize = 0;
    while i < 32
        invariant
            i <= 32,
            v@ == src@.take(i as int),
        decreases 32 - i,
    {
        v.push(src[i]);
        i = i + 1;
        assert(v@ == src@.take(i as int));
    }
    assert(src@.take(32) == src@);
    v
}

/// The number `ℓ`, the order of the group.
fn group_order_number() -> (r: UBig)
    ensures
        r@ == group_order(),
{
    let one = scalar_from_u64(1);
    proof {
        lemma_small_mod(1, group_order());
    }
    let minus_one = scalar_neg(&one);
    proof {
        lemma_small_mod((group_order() - 1) as nat, group_order());
    }
    ubig_add(&scalar_to_biguint(&minus_one), &UBig::from_u64(1))
}

/// The scalar of the 64 low bytes of `n`: `(n mod 2^512) mod ℓ`.
fn low_bytes_to_scalar(n: &UBig) -> (r: GroupScalar)
    ensures
        r.wf(),
        r@ == (n@ % pow256(64)) % group_order(),
{
    let len = n.le_bytes.len();
    let take = if len < 64 {
        len
    } else {
        64
    };
    let mut buf = [0u8; 64];
    let mut i: usize = 0;
    while i < take
        invariant
            take <= 64,
            take <= n.le_bytes@.len(),
            i <= take,
            buf@.len() == 64,
            forall|j: int| 0 <= j < i ==> buf@[j] == n.le_bytes@[j],
            forall|j: int| i <= j < 64 ==> buf@[j] == 0,
        decreases take - i,
    {
        buf[i] = n.le_bytes[i];
        i = i + 1;
    }
    proof {
        let s = n.le_bytes@;
        let low = s.take(take as int);
        assert(buf@ == low + buf@.skip(take as int));
        lemma_le_value_zero_extend(low, buf@.skip(take as int));
        lemma_le_value_take_mod(s, take as int);
        if len >= 64 {
            assert(take == 64);
        } else {
            lemma_le_value_bound(s);
            lemma_pow256_monotonic(len as nat, 64);
            assert(low == s);
            lemma_small_mod(le_value(s), pow256(64));
            lemma_small_mod(le_value(s), pow256(len as nat));
        }
    }
    scalar_from_bytes_wide(&buf)
}

/// The scalar `n mod ℓ`.
pub fn biguint_to_scalar(n: &UBig) -> (r: GroupScalar)
    ensures
        r.wf(),
        r@ == n@ % group_order(),
{
    let l = group_order_number();
    let reduced = ubig_rem(n, &l);
    proof {
        lemma_group_order_bound();
        lemma_mod_bound(n@ as int, group_order() as int);
        lemma_small_mod(reduced@, pow256(64));
        lemma_small_mod(reduced@, group_order());
    }
    low_bytes_to_scalar(&reduced)
}

/// The number whose little-endian bytes are those of the scalar.
pub fn scalar_to_biguint(s: &GroupScalar) -> (r: UBig)
    ensures
        r@ == s@,
        r.le_bytes@ == s.bytes@,
{
    UBig { le_bytes: bytes_to_vec(&s.bytes) }
}

/// The number whose little-endian bytes are the element's encoding.
pub fn ristretto_point_to_biguint(p: &GroupElement) -> (r: UBig)
    ensures
        r@ == le_value(p.enc@),
        r.le_bytes@ == p.enc@,
{
    UBig { le_bytes: bytes_to_vec(&p.enc) }
}

/// Why `biguint_to_ristretto_point` refuses `n`, if it does.
pub open spec fn point_conversion_error(n: nat) -> Option<Seq<char>> {
    if n >= pow256(32) {
        Some("commitment too large for 32-byte point"@)
    } else if !ristretto_decodes(le_bytes_fixed(n, 32)) {
        Some("invalid compressed point for value "@ + decimal_string(n))
    } else {
        None
    }
}

/// The group element whose 32-byte little-endian encoding has the value `n`.
pub fn biguint_to_ristretto_point(n: &UBig) -> (r: Result<GroupElement, String>)
    ensures
        r is Ok <==> point_conversion_error(n@) is None,
        r matches Err(e) ==> point_conversion_error(n@) == Some(e@),
        r matches Ok(g) ==> g.wf() && g.enc@ == le_bytes_fixed(n@, 32) && le_value(g.enc@)
            == n@,
{
    let s = &n.le_bytes;
    let mut len = s.len();
    while len > 0 && s[len - 1] == 0
        invariant
            len <= s@.len(),
            forall|j: int| len <= j < s@.len() ==> s@[j] == 0,
        decreases len,
    {
        len = len - 1;
    }
    proof {
        lemma_le_value_high_zero(s@, len as int);
        lemma_le_value_split(s@, len as int);
        assert(le_value(s@) == le_value(s@.take(len as int)));
    }
    if len > 32 {
        proof {
            lemma_le_value_last_nonzero(s@, len - 1);
            lemma_pow256_monotonic(32, (len - 1) as nat);
        }
        return Err(String::from_str("commitment too large for 32-byte point"));
    }
    let mut buf = [0u8; 32];
    let mut i: usize = 0;
    while i < len
        invariant
            len <= 32,
            len <= s@.len(),
            i <= len,
            buf@.len() == 32,
            forall|j: int| 0 <= j < i ==> buf@[j] == s@[j],
            forall|j: int| i <= j < 32 ==> buf@[j] == 0,
        decreases len - i,
    {
        buf[i] = s[i];
        i = i + 1;
    }
    proof {
        let low = s@.take(len as int);
        assert(buf@ == low + buf@.skip(len as int));
        lemma_le_value_zero_extend(low, buf@.skip(len as int));
        lemma_le_value_bound(low);
        lemma_pow256_monotonic(len as nat, 32);
        lemma_le_value_injective(buf@);
    }
    match point_decode(buf) {
        Some(g) => Ok(g),
        None => {
            let mut msg = String::from_str("invalid compressed point for value ");
            let dec = ubig_to_decimal(n);
            msg.append(dec.as_str());
            Err(msg)
        },
    }
}

/// A scalar written as a number and read back is the same scalar.
pub proof fn lemma_scalar_roundtrip(s: GroupScalar)
    requires
        s.wf(),
    ensures
        le_value(s.bytes@) % group_order() == s@,
{
    lemma_small_mod(s@, group_order());
}

/// A group element written as a number and read back is the same element.
pub proof fn lemma_point_roundtrip(p: GroupElement)
    requires
        p.wf(),
    ensures
        point_conversion_error(le_value(p.enc@)) is None,
        le_bytes_fixed(le_value(p.enc@), 32) == p.enc@,
{
    lemma_le_value_injective(p.enc@);
    lemma_le_value_bound(p.enc@);
}

} // verus!
