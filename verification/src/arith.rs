//! Natural numbers written as little-endian bytes, and modular arithmetic facts.

use vstd::arithmetic::div_mod::*;
use vstd::arithmetic::mul::*;
use vstd::prelude::*;

verus! {

/// The natural number whose little-endian base-256 digits are `s`.
pub open spec fn le_value(s: Seq<u8>) -> nat
    decreases s.len(),
{
    if s.len() == 0 {
        0
    } else {
        s[0] as nat + 256 * le_value(s.drop_first())
    }
}

/// `256^n`.
pub open spec fn pow256(n: nat) -> nat
    decreases n,
{
    if n == 0 {
        1
    } else {
        256 * pow256((n - 1) as nat)
    }
}

pub proof fn lemma_pow256_positive(n: nat)
    ensures
        pow256(n) >= 1,
    decreases n,
{
    if n > 0 {
        lemma_pow256_positive((n - 1) as nat);
    }
}

/// A little-endian number of `n` bytes is below `256^n`.
pub proof fn lemma_le_value_bound(s: Seq<u8>)
    ensures
        le_value(s) < pow256(s.len()),
    decreases s.len(),
{
    if s.len() > 0 {
        lemma_le_value_bound(s.drop_first());
    }
}

/// Appending zero bytes at the high end leaves the value unchanged.
pub proof fn lemma_le_value_zero_extend(s: Seq<u8>, t: Seq<u8>)
    requires
        forall|i: int| 0 <= i < t.len() ==> t[i] == 0,
    ensures
        le_value(s + t) == le_value(s),
    decreases s.len() + t.len(),
{
    if s.len() == 0 {
        assert(s + t == t);
        if t.len() > 0 {
            lemma_le_value_zero_extend(s, t.drop_first());
            assert(s + t.drop_first() == t.drop_first());
        }
    } else {
        assert((s + t).drop_first() == s.drop_first() + t);
        lemma_le_value_zero_extend(s.drop_first(), t);
    }
}

/// Splitting a little-endian number at byte `k`.
pub proof fn lemma_le_value_split(s: Seq<u8>, k: int)
    requires
        0 <= k <= s.len(),
    ensures
        le_value(s) == le_value(s.take(k)) + pow256(k as nat) * le_value(s.skip(k)),
    decreases k,
{
    if k == 0 {
        assert(s.skip(0) == s);
        assert(le_value(s.take(0)) == 0);
        let v = le_value(s);
        assert(pow256(0) * v == v) by (nonlinear_arith)
            requires
                pow256(0) == 1,
        ;
    } else {
        lemma_le_value_split(s.drop_first(), k - 1);
        assert(s.take(k).drop_first() == s.drop_first().take(k - 1));
        assert(s.skip(k) == s.drop_first().skip(k - 1));
        let a = le_value(s.drop_first().take(k - 1));
        let b = le_value(s.skip(k));
        assert(le_value(s.take(k)) == s[0] as nat + 256 * a);
        assert(pow256(k as nat) == 256 * pow256((k - 1) as nat));
        let p = pow256((k - 1) as nat);
        assert(le_value(s) == s[0] as nat + 256 * le_value(s.drop_first()));
        assert(le_value(s.drop_first()) == a + p * b);
        let t = le_value(s.take(k));
        let l = le_value(s);
        let q = pow256(k as nat);
        assert(l == t + q * b) by (nonlinear_arith)
            requires
                l == s[0] as nat + 256 * (a + p * b),
                t == s[0] as nat + 256 * a,
                q == 256 * p,
        ;
    }
}

/// A number is below `256^k` exactly when its bytes from `k` on are all zero.
pub proof fn lemma_le_value_high_zero(s: Seq<u8>, k: int)
    requires
        0 <= k <= s.len(),
    ensures
        le_value(s.skip(k)) == 0 <==> (forall|i: int| k <= i < s.len() ==> s[i] == 0),
    decreases s.len() - k,
{
    if k < s.len() {
        lemma_le_value_high_zero(s, k + 1);
        assert(s.skip(k).drop_first() == s.skip(k + 1));
    } else {
        assert(s.skip(k).len() == 0);
    }
}

/// The `len` little-endian bytes of `v mod 256^len`.
pub open spec fn le_bytes_fixed(v: nat, len: nat) -> Seq<u8>
    decreases len,
{
    if len == 0 {
        Seq::<u8>::empty()
    } else {
        seq![(v % 256) as u8] + le_bytes_fixed(v / 256, (len - 1) as nat)
    }
}

/// Bytes of a fixed length are determined by their value.
pub proof fn lemma_le_value_injective(s: Seq<u8>)
    ensures
        s == le_bytes_fixed(le_value(s), s.len()),
    decreases s.len(),
{
    if s.len() > 0 {
        let t = s.drop_first();
        lemma_le_value_injective(t);
        let v = le_value(s);
        let w = le_value(t);
        assert(v == s[0] as nat + 256 * w);
        lemma_fundamental_div_mod(v as int, 256);
        lemma_mod_multiples_vanish(w as int, s[0] as int, 256);
        lemma_small_mod(s[0] as nat, 256);
        lemma_div_multiples_vanish_fancy(w as int, s[0] as int, 256);
        assert(v % 256 == s[0]);
        assert(v / 256 == w);
        let f = le_bytes_fixed(v, s.len());
        assert(f == seq![(v % 256) as u8] + le_bytes_fixed(w, t.len()));
        assert(f.drop_first() == t);
        assert(f[0] == s[0]);
        assert(f =~= s);
    }
}

pub proof fn lemma_pow256_monotonic(a: nat, b: nat)
    requires
        a <= b,
    ensures
        pow256(a) <= pow256(b),
    decreases b,
{
    if a < b {
        lemma_pow256_monotonic(a, (b - 1) as nat);
        lemma_pow256_positive((b - 1) as nat);
    }
}

/// The first `k` bytes give the value modulo `256^k`.
pub proof fn lemma_le_value_take_mod(s: Seq<u8>, k: int)
    requires
        0 <= k <= s.len(),
    ensures
        le_value(s.take(k)) == le_value(s) % pow256(k as nat),
{
    lemma_le_value_split(s, k);
    lemma_le_value_bound(s.take(k));
    lemma_pow256_positive(k as nat);
    let lo = le_value(s.take(k));
    let hi = le_value(s.skip(k));
    let m = pow256(k as nat);
    lemma_mod_multiples_vanish(hi as int, lo as int, m as int);
    lemma_small_mod(lo, m);
    assert(m * hi + lo == lo + m * hi);
}

/// A number whose byte `k` is its last nonzero byte is at least `256^k`.
pub proof fn lemma_le_value_last_nonzero(s: Seq<u8>, k: int)
    requires
        0 <= k < s.len(),
        s[k] != 0,
    ensures
        le_value(s) >= pow256(k as nat),
{
    lemma_le_value_split(s, k);
    let hi = s.skip(k);
    assert(hi[0] == s[k]);
    assert(le_value(hi) >= 1);
    let m = pow256(k as nat);
    lemma_pow256_positive(k as nat);
    let h = le_value(hi);
    assert(m * h >= m) by (nonlinear_arith)
        requires
            h >= 1,
            m >= 1,
    ;
}

} // verus!
