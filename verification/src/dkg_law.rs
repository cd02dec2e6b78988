//! Key generation is correct: the key shares that the participants derive
//! are shares of the joint secret, the sum of the dealers' secrets.

use crate::dkg::scalar_sum;
use crate::group::group_order;
use crate::vss::{dealt, lagrange_coefficient, lagrange_combination, scalar_of, DealResult};
use crate::vss_law::{lemma_dealt_shares_reconstruct, lemma_scalar_of_small};
use vstd::arithmetic::div_mod::*;
use vstd::prelude::*;

verus! {

/// The key share of the participant at index `i` (id `i + 1`): the sum modulo
/// `ℓ` of the shares `s` that every deal hands it, in the order of the deals.
pub open spec fn key_share_of(deals: Seq<DealResult>, i: int) -> nat {
    scalar_sum(Seq::new(deals.len(), |j: int| deals[j].shares@[i].1@), deals.len() as int)
}

/// `(c * ((a + b) mod ℓ)) mod ℓ == ((c * a) mod ℓ + (c * b) mod ℓ) mod ℓ`.
proof fn lemma_scaled_sum(c: int, a: int, b: int)
    ensures
        ({
            let l = group_order() as int;
            (c * ((a + b) % l)) % l == ((c * a) % l + (c * b) % l) % l
        }),
{
    let l = group_order() as int;
    lemma_mul_mod_noop_right(c, a + b, l);
    assert(c * (a + b) == c * a + c * b) by (nonlinear_arith);
    lemma_add_mod_noop(c * a, c * b, l);
}

/// Lagrange combinations are additive modulo `ℓ`.
proof fn lemma_combination_additive(xs: Seq<nat>, a: Seq<nat>, b: Seq<nat>, z: Seq<nat>, k: int)
    requires
        0 <= k <= xs.len(),
        k <= a.len(),
        k <= b.len(),
        k <= z.len(),
        forall|i: int| 0 <= i < k ==> #[trigger] z[i] == (a[i] + b[i]) % group_order(),
    ensures
        lagrange_combination(xs, z, k) == (lagrange_combination(xs, a, k) + lagrange_combination(
            xs,
            b,
            k,
        )) % group_order(),
    decreases k,
{
    let l = group_order() as int;
    if k == 0 {
        lemma_small_mod(0, group_order());
    } else {
        lemma_combination_additive(xs, a, b, z, k - 1);
        let c = lagrange_coefficient(xs, k - 1, xs.len() as int) as int;
        let ta = (c * a[k - 1]) % l;
        let tb = (c * b[k - 1]) % l;
        lemma_scaled_sum(c, a[k - 1] as int, b[k - 1] as int);
        let za = lagrange_combination(xs, a, k - 1) as int;
        let zb = lagrange_combination(xs, b, k - 1) as int;
        // ((za + zb) % l + (ta + tb) % l) % l == ((za + ta) % l + (zb + tb) % l) % l
        lemma_add_mod_noop(za + zb, ta + tb, l);
        lemma_mod_twice(za + zb, l);
        lemma_mod_twice(ta + tb, l);
        lemma_add_mod_noop(za + ta, zb + tb, l);
        assert((za + zb) + (ta + tb) == (za + ta) + (zb + tb));
        lemma_add_mod_noop(za + zb, (ta + tb) % l, l);
        lemma_add_mod_noop((za + zb) % l, ta + tb, l);
    }
}

/// The combination of all-zero values is zero.
proof fn lemma_combination_zero(xs: Seq<nat>, z: Seq<nat>, k: int)
    requires
        0 <= k <= xs.len(),
        k <= z.len(),
        forall|i: int| 0 <= i < k ==> #[trigger] z[i] == 0,
    ensures
        lagrange_combination(xs, z, k) == 0,
    decreases k,
{
    if k > 0 {
        lemma_combination_zero(xs, z, k - 1);
        let c = lagrange_coefficient(xs, k - 1, xs.len() as int);
        assert(c * z[k - 1] == 0) by (nonlinear_arith)
            requires
                z[k - 1] == 0,
        ;
        lemma_small_mod(0, group_order());
    }
}

/// The nodes `scalar_of(i + 1)` of the participants at the indices `idx`.
pub open spec fn participant_nodes(idx: Seq<int>) -> Seq<nat> {
    Seq::new(idx.len(), |k: int| scalar_of((idx[k] + 1) as nat))
}

/// The shares `s` that the deals hand the participant at index `idx[k]`.
spec fn column(deals: Seq<DealResult>, idx: Seq<int>, k: int) -> Seq<nat> {
    Seq::new(deals.len(), |j: int| deals[j].shares@[idx[k]].1@)
}

/// The key shares of the participants at the indices `idx`, summed over the first `m` deals.
spec fn partial_key_shares(deals: Seq<DealResult>, idx: Seq<int>, m: int) -> Seq<nat> {
    Seq::new(idx.len(), |k: int| scalar_sum(column(deals, idx, k), m))
}

/// Gennaro key generation is correct: when every participant adds up the
/// shares that the honest deals handed it, any `threshold` or more of the
/// resulting key shares, at distinct participants, reconstruct the joint
/// secret `Σ_j secret_j mod ℓ` (each secret read as a scalar).
pub proof fn lemma_key_shares_reconstruct(
    deals: Seq<DealResult>,
    secrets: Seq<nat>,
    players: usize,
    threshold: nat,
    idx: Seq<int>,
)
    requires
        deals.len() == secrets.len(),
        forall|j: int|
            0 <= j < deals.len() ==> dealt(#[trigger] deals[j], secrets[j], players as nat, threshold),
        idx.no_duplicates(),
        idx.len() >= threshold,
        forall|k: int| 0 <= k < idx.len() ==> 0 <= #[trigger] idx[k] < players,
    ensures
        lagrange_combination(
            participant_nodes(idx),
            Seq::new(idx.len(), |k: int| scalar_of(key_share_of(deals, idx[k]))),
            idx.len() as int,
        ) == scalar_sum(secrets, secrets.len() as int),
{
    let n = idx.len() as int;
    let d = deals.len() as int;
    lemma_partial_key_shares(deals, secrets, players, threshold, idx, d);
    let ys = Seq::new(idx.len(), |k: int| scalar_of(key_share_of(deals, idx[k])));
    let pd = partial_key_shares(deals, idx, d);
    assert forall|k: int| 0 <= k < n implies #[trigger] ys[k] == pd[k] by {
        let c = column(deals, idx, k);
        assert(c =~= Seq::new(deals.len(), |j: int| deals[j].shares@[idx[k]].1@));
        lemma_scalar_sum_bound(c, d);
        lemma_scalar_of_small(scalar_sum(c, d));
    }
    assert(ys =~= pd);
}

proof fn lemma_scalar_sum_bound(v: Seq<nat>, k: int)
    ensures
        scalar_sum(v, k) < group_order(),
{
    if k <= 0 {
    } else {
        lemma_mod_bound((scalar_sum(v, k - 1) + scalar_of(v[k - 1])) as int, group_order() as int);
    }
}

/// The key shares summed over the first `m` deals reconstruct the sum of the
/// first `m` secrets.
proof fn lemma_partial_key_shares(
    deals: Seq<DealResult>,
    secrets: Seq<nat>,
    players: usize,
    threshold: nat,
    idx: Seq<int>,
    m: int,
)
    requires
        0 <= m <= deals.len(),
        deals.len() == secrets.len(),
        forall|j: int|
            0 <= j < deals.len() ==> dealt(#[trigger] deals[j], secrets[j], players as nat, threshold),
        idx.no_duplicates(),
        idx.len() >= threshold,
        forall|k: int| 0 <= k < idx.len() ==> 0 <= #[trigger] idx[k] < players,
    ensures
        lagrange_combination(participant_nodes(idx), partial_key_shares(deals, idx, m), idx.len() as int)
            == scalar_sum(secrets, m),
    decreases m,
{
    let n = idx.len() as int;
    let xs = participant_nodes(idx);
    let cur = partial_key_shares(deals, idx, m);
    if m == 0 {
        lemma_combination_zero(xs, cur, n);
    } else {
        lemma_partial_key_shares(deals, secrets, players, threshold, idx, m - 1);
        let prev = partial_key_shares(deals, idx, m - 1);
        let res = deals[m - 1];
        let dealt_ys = Seq::new(idx.len(), |k: int| scalar_of(res.shares@[idx[k]].1@));
        assert(dealt(deals[m - 1], secrets[m - 1], players as nat, threshold));
        lemma_dealt_shares_reconstruct(res, secrets[m - 1], players, threshold, idx);
        assert forall|k: int| 0 <= k < n implies #[trigger] cur[k] == (prev[k] + dealt_ys[k])
            % group_order() by {
            assert(column(deals, idx, k)[m - 1] == res.shares@[idx[k]].1@);
        }
        lemma_combination_additive(xs, prev, dealt_ys, cur, n);
    }
}

} // verus!
