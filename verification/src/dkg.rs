//! Gennaro distributed key generation: Feldman commitments to a dealer's
//! polynomial, their verification, and the key share and public key that the
//! participants derive.

use crate::bignum::UBig;
use crate::convert::{biguint_to_ristretto_point, biguint_to_scalar, ristretto_point_to_biguint, scalar_to_biguint};
use crate::group::{basepoint, group_order, identity, point_add, point_eq, point_mul, scalar_add, scalar_from_u64, scalar_mul};
use crate::shamir::values;
use crate::strmap::StrMap;
use crate::vss::{commitment_sum, commitments_error, encodes, scalar_of};
use vstd::arithmetic::div_mod::*;
use vstd::arithmetic::power::pow;
use vstd::prelude::*;

verus! {

/// The Feldman commitments `a_j·G` to the coefficients `a_j`.
pub fn feldman_commitments(coeffs: Vec<UBig>) -> (r: Vec<UBig>)
    ensures
        r.len() == coeffs.len(),
        forall|j: int| 0 <= j < coeffs.len() ==> encodes(#[trigger] r@[j], scalar_of(coeffs@[j]@)),
{
    let g = basepoint();
    let mut out: Vec<UBig> = Vec::new();
    let mut j: usize = 0;
    while j < coeffs.len()
        invariant
            g.wf(),
            g.log() == 1,
            j <= coeffs.len(),
            out.len() == j,
            forall|k: int| 0 <= k < j ==> encodes(#[trigger] out@[k], scalar_of(coeffs@[k]@)),
        decreases coeffs.len() - j,
    {
        let s = biguint_to_scalar(&coeffs[j]);
        let p = point_mul(&g, &s);
        proof {
            assert(1 * s@ == s@);
            lemma_small_mod(s@, group_order());
        }
        out.push(ristretto_point_to_biguint(&p));
        j = j + 1;
    }
    out
}

/// Checks a share against Feldman commitments: `Σ_k C_k · j^k == share·G`,
/// with both sides.
pub fn feldman_verify(participant_id: usize, commitments: Vec<UBig>, share: UBig) -> (r: Result<
    (bool, UBig, UBig),
    String,
>)
    ensures
        ({
            let cs = values(commitments@);
            let n = cs.len() as int;
            let lhs = commitment_sum(cs, participant_id as nat, n);
            let rhs = scalar_of(share@);
            &&& r is Ok <==> commitments_error(cs, n) is None
            &&& r matches Err(e) ==> commitments_error(cs, n) == Some(e@)
            &&& r matches Ok(res) ==> {
                &&& res.0 == (lhs == rhs)
                &&& res.0 == (res.1@ == res.2@)
                &&& encodes(res.1, lhs)
                &&& encodes(res.2, rhs)
            }
        }),
{
    let ghost cs = values(commitments@);
    let mut commitment_value = identity();
    let x = scalar_from_u64(participant_id as u64);
    let mut x_pow_k = scalar_from_u64(1);
    proof {
        reveal(pow);
        lemma_small_mod(1, group_order());
        lemma_small_mod(0, group_order());
    }
    let mut k: usize = 0;
    while k < commitments.len()
        invariant
            cs == values(commitments@),
            x.wf(),
            x@ == participant_id as nat,
            k <= commitments.len(),
            commitments_error(cs, k as int) is None,
            commitment_value.wf(),
            commitment_value.log() == commitment_sum(cs, x@, k as int),
            x_pow_k.wf(),
            x_pow_k@ as int == pow(x@ as int, k as nat) % (group_order() as int),
        decreases commitments.len() - k,
    {
        let ck = match biguint_to_ristretto_point(&commitments[k]) {
            Ok(p) => p,
            Err(e) => {
                assert(commitments_error(cs, (k + 1) as int) == Some(e@));
                proof {
                    crate::vss::lemma_error_persists(cs, (k + 1) as int, cs.len() as int);
                }
                return Err(e);
            },
        };
        let term = point_mul(&ck, &x_pow_k);
        commitment_value = point_add(&commitment_value, &term);
        proof {
            crate::vss::lemma_pow_mod_step(x@ as int, k as nat, group_order() as int);
        }
        x_pow_k = scalar_mul(&x_pow_k, &x);
        k = k + 1;
    }
    let g = basepoint();
    let s = biguint_to_scalar(&share);
    let share_value = point_mul(&g, &s);
    proof {
        assert(1 * s@ == s@);
        lemma_small_mod(s@, group_order());
    }
    let result = point_eq(&commitment_value, &share_value);
    proof {
        crate::arith::lemma_le_value_injective(commitment_value.enc@);
        crate::arith::lemma_le_value_injective(share_value.enc@);
    }
    Ok(
        (
            result,
            ristretto_point_to_biguint(&commitment_value),
            ristretto_point_to_biguint(&share_value),
        ),
    )
}

/// `Σ_{i<k} scalar_of(v_i) mod ℓ`, reduced at each step.
pub open spec fn scalar_sum(v: Seq<nat>, k: int) -> nat
    decreases k,
{
    if k <= 0 {
        0
    } else {
        (scalar_sum(v, k - 1) + scalar_of(v[k - 1])) % group_order()
    }
}

fn sum_scalars(v: &Vec<UBig>) -> (r: UBig)
    ensures
        r@ == scalar_sum(values(v@), v.len() as int),
{
    let ghost vals = values(v@);
    let mut sum = scalar_from_u64(0);
    proof {
        lemma_small_mod(0, group_order());
    }
    let mut i: usize = 0;
    while i < v.len()
        invariant
            vals == values(v@),
            i <= v.len(),
            sum.wf(),
            sum@ == scalar_sum(vals, i as int),
        decreases v.len() - i,
    {
        let s = biguint_to_scalar(&v[i]);
        sum = scalar_add(&sum, &s);
        i = i + 1;
    }
    scalar_to_biguint(&sum)
}

/// The key share `x_i = Σ_j s_ji mod ℓ` of the shares received from every dealer.
pub fn gennaro_derive_key_share(shares: Vec<UBig>) -> (r: Result<UBig, String>)
    ensures
        r matches Ok(x) && x@ == scalar_sum(values(shares@), shares.len() as int),
        r matches Ok(x) && x@ == shares@.fold_left(0int, |acc: int, s: UBig| acc + s@) % (
        group_order() as int),
{
    let r = sum_scalars(&shares);
    proof {
        lemma_key_share_is_sum(shares@);
    }
    Ok(r)
}

/// Some participant's commitment list is empty.
pub open spec fn has_empty(entries: Seq<(String, Vec<UBig>)>) -> bool {
    exists|i: int| 0 <= i < entries.len() && (#[trigger] entries[i]).1.len() == 0
}

/// The first participant whose commitment list is empty.
pub open spec fn first_empty(entries: Seq<(String, Vec<UBig>)>) -> int {
    choose|i: int|
        0 <= i < entries.len() && (#[trigger] entries[i]).1.len() == 0 && forall|j: int|
            0 <= j < i ==> (#[trigger] entries[j]).1.len() != 0
}

/// The first commitment `a_i0·G` of every participant.
pub open spec fn first_commitments(entries: Seq<(String, Vec<UBig>)>) -> Seq<nat> {
    Seq::new(entries.len(), |i: int| entries[i].1@[0]@)
}

/// Adds up, as scalars modulo `ℓ`, the first commitment of every participant;
/// refused when a participant has none.
pub fn feldman_derived_public_key(commitments: StrMap<Vec<UBig>>) -> (r: Result<UBig, String>)
    ensures
        r is Err <==> has_empty(commitments.entries@),
        r matches Err(e) ==> e@ == "participant "@ + commitments.entries@[first_empty(
            commitments.entries@,
        )].0@ + " has no commitments"@,
        r matches Ok(x) ==> x@ == scalar_sum(
            first_commitments(commitments.entries@),
            commitments.entries.len() as int,
        ),
        r matches Ok(x) ==> x@ == commitments.entries@.fold_left(
            0int,
            |acc: int, e: (String, Vec<UBig>)| acc + e.1@[0]@,
        ) % (group_order() as int),
{
    let entries = &commitments.entries;
    let mut firsts: Vec<UBig> = Vec::new();
    let mut i: usize = 0;
    while i < entries.len()
        invariant
            entries@ == commitments.entries@,
            i <= entries.len(),
            firsts.len() == i,
            forall|j: int| 0 <= j < i ==> (#[trigger] entries@[j]).1.len() != 0,
            forall|j: int| 0 <= j < i ==> #[trigger] firsts@[j]@ == entries@[j].1@[0]@,
        decreases entries.len() - i,
    {
        if entries[i].1.len() == 0 {
            let ghost f = first_empty(entries@);
            assert(f == i) by {
                assert(entries@[i as int].1.len() == 0);
                assert(0 <= f < entries.len() && entries@[f].1.len() == 0 && forall|j: int|
                    0 <= j < f ==> (#[trigger] entries@[j]).1.len() != 0);
                if f < i {
                    assert(entries@[f].1.len() != 0);
                }
                if f > i {
                    assert(entries@[i as int].1.len() != 0);
                }
            }
            assert(has_empty(entries@));
            let mut msg = String::from_str("participant ");
            msg.append(entries[i].0.as_str());
            msg.append(" has no commitments");
            return Err(msg);
        }
        firsts.push(entries[i].1[0].copy());
        i = i + 1;
    }
    assert(values(firsts@) == first_commitments(entries@));
    let r = sum_scalars(&firsts);
    proof {
        lemma_public_key_is_sum(entries@);
    }
    Ok(r)
}

/// Feldman verification accepts every share of the polynomial it commits
/// to: if `C_k` encodes `(a_k mod ℓ)·G`, then `Σ_k C_k · x^k == (A(x) mod ℓ)·G`.
pub proof fn lemma_feldman_accepts(cs: Seq<UBig>, a: Seq<nat>, x: nat)
    requires
        cs.len() == a.len(),
        forall|k: int| 0 <= k < a.len() ==> encodes(#[trigger] cs[k], scalar_of(a[k])),
    ensures
        commitments_error(values(cs), a.len() as int) is None,
        commitment_sum(values(cs), x, a.len() as int) == scalar_of(crate::vss::poly_mod(a, x)),
{
    let l = group_order() as int;
    let n = a.len() as int;
    let vs = values(cs);
    assert forall|j: int| 0 <= j < n implies (#[trigger] cs[j]).le_bytes@.len() == 32
        && crate::group::ristretto_decodes(cs[j].le_bytes@) by {
        assert(encodes(cs[j], scalar_of(a[j])));
    }
    crate::vss_law::lemma_commitments_decode(vs, cs, n);
    crate::vss_law::lemma_commitment_sum(vs, x, n);
    let logs = Seq::new(vs.len(), |j: int| crate::group::ristretto_log(crate::arith::le_bytes_fixed(vs[j], 32)) as int);
    let ai = crate::shamir_law::as_ints(a);
    assert forall|j: int| 0 <= j < n implies #[trigger] logs[j] % l == ai[j] % l by {
        assert(encodes(cs[j], scalar_of(a[j])));
        lemma_mod_twice(a[j] as int, l);
        assert(crate::arith::le_bytes_fixed(vs[j], 32) == cs[j].le_bytes@);
    }
    crate::vss_law::lemma_power_sum_cong(logs, ai, x as int, n, l);
    crate::poly::lemma_power_sum(ai, x as int);
    let fx = crate::poly::poly_eval(ai, x as int);
    lemma_mod_bound(fx, l);
    crate::vss_law::lemma_scalar_of_small(crate::vss::poly_mod(a, x));
}

/// `scalar_sum` of the first `k` values is their plain sum, reduced modulo `ℓ`.
proof fn lemma_scalar_sum_take(w: Seq<nat>, k: int)
    requires
        0 <= k <= w.len(),
    ensures
        scalar_sum(w, k) as int == w.take(k).fold_left(0int, |acc: int, x: nat| acc + x) % (
        group_order() as int),
    decreases k,
{
    let l = group_order() as int;
    let f = |acc: int, x: nat| acc + x;
    if k == 0 {
        lemma_small_mod(0, group_order());
    } else {
        lemma_scalar_sum_take(w, k - 1);
        let t = w.take(k);
        assert(t.drop_last() =~= w.take(k - 1));
        assert(t.last() == w[k - 1]);
        let p = w.take(k - 1).fold_left(0int, f);
        assert(t.fold_left(0int, f) == p + w[k - 1]);
        lemma_add_mod_noop(p, w[k - 1] as int, l);
        lemma_mod_twice(p, l);
        lemma_mod_twice(w[k - 1] as int, l);
        lemma_add_mod_noop(p % l, w[k - 1] as int, l);
    }
}

/// The plain sum of the values of numbers is the plain sum of the numbers.
proof fn lemma_values_sum(v: Seq<UBig>)
    ensures
        values(v).fold_left(0int, |acc: int, x: nat| acc + x) == v.fold_left(
            0int,
            |acc: int, s: UBig| acc + s@,
        ),
    decreases v.len(),
{
    if v.len() > 0 {
        lemma_values_sum(v.drop_last());
        assert(values(v).drop_last() =~= values(v.drop_last()));
    }
}

/// The plain sum of participants' first commitments, as numbers.
proof fn lemma_firsts_sum(entries: Seq<(String, Vec<UBig>)>)
    ensures
        first_commitments(entries).fold_left(0int, |acc: int, x: nat| acc + x) == entries.fold_left(
            0int,
            |acc: int, e: (String, Vec<UBig>)| acc + e.1@[0]@,
        ),
    decreases entries.len(),
{
    if entries.len() > 0 {
        lemma_firsts_sum(entries.drop_last());
        assert(first_commitments(entries).drop_last() =~= first_commitments(entries.drop_last()));
    }
}

/// A key share is the sum of all the shares received, modulo `ℓ`.
pub proof fn lemma_key_share_is_sum(shares: Seq<UBig>)
    ensures
        scalar_sum(values(shares), shares.len() as int) as int == shares.fold_left(
            0int,
            |acc: int, s: UBig| acc + s@,
        ) % (group_order() as int),
{
    let w = values(shares);
    lemma_scalar_sum_take(w, w.len() as int);
    assert(w.take(w.len() as int) =~= w);
    lemma_values_sum(shares);
}

/// One more received share adds its value to the key share, modulo `ℓ`.
pub proof fn lemma_key_share_push(shares: Seq<UBig>, s: UBig)
    ensures
        scalar_sum(values(shares.push(s)), shares.len() + 1int) as int == (scalar_sum(
            values(shares),
            shares.len() as int,
        ) as int + s@ as int) % (group_order() as int),
{
    let l = group_order() as int;
    let f = |acc: int, u: UBig| acc + u@;
    lemma_key_share_is_sum(shares);
    lemma_key_share_is_sum(shares.push(s));
    assert(shares.push(s).drop_last() =~= shares);
    let p = shares.fold_left(0int, f);
    assert(shares.push(s).fold_left(0int, f) == p + s@);
    lemma_add_mod_noop(p, s@ as int, l);
    lemma_mod_twice(p, l);
    lemma_add_mod_noop(p % l, s@ as int, l);
    lemma_mod_twice(s@ as int, l);
}

/// The public key is the sum of every participant's first commitment (the
/// commitment to its constant term), modulo `ℓ`.
pub proof fn lemma_public_key_is_sum(entries: Seq<(String, Vec<UBig>)>)
    ensures
        scalar_sum(first_commitments(entries), entries.len() as int) as int == entries.fold_left(
            0int,
            |acc: int, e: (String, Vec<UBig>)| acc + e.1@[0]@,
        ) % (group_order() as int),
{
    let w = first_commitments(entries);
    lemma_scalar_sum_take(w, w.len() as int);
    assert(w.take(w.len() as int) =~= w);
    lemma_firsts_sum(entries);
}

} // verus!
