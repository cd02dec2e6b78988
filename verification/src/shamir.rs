//! Shamir's (k, n) secret sharing over the integers modulo a prime.
//!
//! A dealer hides the secret as the constant term of a random polynomial of
//! degree `k - 1` modulo `p` and hands out its values at `1, 2, ..., n`;
//! Lagrange interpolation at zero recovers the secret from any `k` of them.

use crate::bignum::{
    decimal_string, ubig_add, ubig_eq, ubig_from_u64, ubig_gen_range, ubig_lt, ubig_modinv,
    ubig_mul, ubig_rem, ubig_sub, ubig_to_decimal, UBig,
};
use crate::nt::{gcd, inverse_mod};
use vstd::arithmetic::power::{lemma_pow1, lemma_pow_adds, pow};
use vstd::prelude::*;

verus! {

/// What the dealer is asked to do.
#[derive(Debug)]
pub struct GenerateShareParams {
    pub secret: UBig,
    pub shares: usize,
    pub threshold: usize,
    pub prime: UBig,
    /// The coefficients of degree `1 ..= k - 1`; drawn at random when absent.
    pub coefficients: Option<Vec<UBig>>,
}

/// The shares `(x, f(x))`, the coefficients of degree `1 ..= k - 1` and the prime.
#[derive(Debug)]
pub struct GenerateSharesResult {
    pub shares: Vec<(UBig, UBig)>,
    pub coefficients: Vec<UBig>,
    pub prime: UBig,
}

/// Shares `(x, y)` to combine, and the prime.
#[derive(Debug)]
pub struct ReconstructParams {
    pub shares: Vec<(UBig, UBig)>,
    pub prime: UBig,
}

/// The secret, the prime and the Lagrange basis values `L_i(0) mod p` of the shares.
#[derive(Debug)]
pub struct ReconstructResult {
    pub secret: UBig,
    pub prime: UBig,
    pub basis_l_vals: Vec<UBig>,
}

/// The values of a sequence of numbers.
pub open spec fn values(v: Seq<UBig>) -> Seq<nat> {
    Seq::new(v.len(), |i: int| v[i]@)
}

/// The first components of a sequence of shares.
pub open spec fn share_xs(v: Seq<(UBig, UBig)>) -> Seq<nat> {
    Seq::new(v.len(), |i: int| v[i].0@)
}

/// The second components of a sequence of shares.
pub open spec fn share_ys(v: Seq<(UBig, UBig)>) -> Seq<nat> {
    Seq::new(v.len(), |i: int| v[i].1@)
}

/// `Σ_{i<k} (c[i] * x^(i+1)) mod p`, each term reduced on its own.
pub open spec fn reduced_terms(c: Seq<nat>, x: nat, p: nat, k: int) -> nat
    decreases k,
{
    if k <= 0 {
        0
    } else {
        reduced_terms(c, x, p, k - 1) + (c[k - 1] * pow(x as int, k as nat) as nat) % p
    }
}

/// The share value `f(x) mod p` of `f(z) = secret + Σ c[i] z^(i+1)`.
pub open spec fn share_value(secret: nat, c: Seq<nat>, x: nat, p: nat) -> nat {
    (reduced_terms(c, x, p, c.len() as int) + secret) % p
}

/// The first reason `generate_shares` refuses `params`, if any.
pub open spec fn generate_error(params: GenerateShareParams) -> Option<Seq<char>> {
    let p = params.prime@;
    if p < params.shares {
        Some("shares count must be <= prime"@)
    } else if params.secret@ >= p {
        Some("invalid secret or prime values. It must be 0 <= secret < prime"@)
    } else if params.threshold < 2 || params.threshold > params.shares {
        Some("invalid threshold or share value. It must be 1 < threshold <= shares"@)
    } else {
        match params.coefficients {
            Some(c) => {
                if c.len() != params.threshold - 1 {
                    Some("coefficients list must be equal threshold -1"@)
                } else if exists|i: int| 0 <= i < c.len() && #[trigger] c@[i]@ >= p {
                    Some("coefficient values must be in [0, p)"@)
                } else if c@[c.len() - 1]@ == 0 {
                    Some("the coefficient a_{k-1} must be > 0"@)
                } else {
                    None
                }
            },
            None => None,
        }
    }
}

/// The shares are the values at `1, ..., n` of the polynomial with the given
/// secret and coefficients, modulo `p`.
pub open spec fn shares_of(
    shares: Seq<(UBig, UBig)>,
    n: nat,
    secret: nat,
    c: Seq<nat>,
    p: nat,
) -> bool {
    &&& shares.len() == n
    &&& forall|i: int|
        0 <= i < n ==> (#[trigger] shares[i]).0@ == i + 1 && shares[i].1@ == share_value(
            secret,
            c,
            (i + 1) as nat,
            p,
        )
}

fn polynomial_value(secret: &UBig, coefficients: &Vec<UBig>, x: &UBig, prime: &UBig) -> (r: UBig)
    requires
        prime@ > 0,
    ensures
        r@ == share_value(secret@, values(coefficients@), x@, prime@),
{
    let ghost c = values(coefficients@);
    let mut ret = UBig::zero();
    let mut power = x.copy();
    proof {
        lemma_pow1(x@ as int);
    }
    let mut i: usize = 0;
    while i < coefficients.len()
        invariant
            prime@ > 0,
            c == values(coefficients@),
            i <= coefficients.len(),
            ret@ == reduced_terms(c, x@, prime@, i as int),
            power@ == pow(x@ as int, (i + 1) as nat),
        decreases coefficients.len() - i,
    {
        let term = ubig_mul(&coefficients[i], &power);
        let term = ubig_rem(&term, prime);
        ret = ubig_add(&ret, &term);
        proof {
            lemma_pow_adds(x@ as int, (i + 1) as nat, 1);
            lemma_pow1(x@ as int);
        }
        power = ubig_mul(&power, x);
        i = i + 1;
    }
    let total = ubig_add(&ret, secret);
    ubig_rem(&total, prime)
}

fn error_message(s: &str) -> (r: String)
    ensures
        r@ == s@,
{
    String::from_str(s)
}

/// Generates the shares `(i, f(i) mod p)`, `i = 1..=shares`, of a polynomial
/// `f` of degree `threshold - 1` whose constant term is the secret.
pub fn generate_shares(params: GenerateShareParams) -> (r: Result<GenerateSharesResult, String>)
    ensures
        r is Ok <==> generate_error(params) is None,
        r matches Err(e) ==> generate_error(params) == Some(e@),
        r matches Ok(res) ==> {
            let c = values(res.coefficients@);
            let p = params.prime@;
            &&& res.prime@ == p
            &&& c.len() == params.threshold - 1
            &&& forall|i: int| 0 <= i < c.len() ==> #[trigger] c[i] < p
            &&& c[c.len() - 1] > 0
            &&& (params.coefficients matches Some(given) ==> c == values(given@))
            &&& shares_of(res.shares@, params.shares as nat, params.secret@, c, p)
        },
{
    let n_shares = ubig_from_u64(params.shares as u64);
    if ubig_lt(&params.prime, &n_shares) {
        return Err(error_message("shares count must be <= prime"));
    }
    if !ubig_lt(&params.secret, &params.prime) {
        return Err(error_message("invalid secret or prime values. It must be 0 <= secret < prime"));
    }
    if params.threshold < 2 || params.threshold > params.shares {
        return Err(
            error_message("invalid threshold or share value. It must be 1 < threshold <= shares"),
        );
    }
    let prime = params.prime;
    let coefficients: Vec<UBig> = match params.coefficients {
        Some(c) => {
            if c.len() != params.threshold - 1 {
                return Err(error_message("coefficients list must be equal threshold -1"));
            }
            let mut i: usize = 0;
            while i < c.len()
                invariant
                    params.coefficients == Some(c),
                    prime@ == params.prime@,
                    !(prime@ < params.shares),
                    params.secret@ < prime@,
                    2 <= params.threshold <= params.shares,
                    c.len() == params.threshold - 1,
                    i <= c.len(),
                    forall|j: int| 0 <= j < i ==> #[trigger] c@[j]@ < prime@,
                decreases c.len() - i,
            {
                if !ubig_lt(&c[i], &prime) {
                    assert(c@[i as int]@ >= prime@);
                    return Err(error_message("coefficient values must be in [0, p)"));
                }
                i = i + 1;
            }
            let zero = UBig::zero();
            if ubig_eq(&c[c.len() - 1], &zero) {
                return Err(error_message("the coefficient a_{k-1} must be > 0"));
            }
            c
        },
        None => {
            let zero = UBig::zero();
            let one = UBig::from_u64(1);
            let mut c: Vec<UBig> = Vec::new();
            let mut i: usize = 0;
            while i < params.threshold - 2
                invariant
                    2 <= params.threshold <= params.shares <= prime@,
                    zero@ == 0,
                    i <= params.threshold - 2,
                    c.len() == i,
                    forall|j: int| 0 <= j < i ==> #[trigger] c@[j]@ < prime@,
                decreases params.threshold - 2 - i,
            {
                c.push(ubig_gen_range(&zero, &prime));
                i = i + 1;
            }
            c.push(ubig_gen_range(&one, &prime));
            c
        },
    };
    let ghost cv = values(coefficients@);
    let mut shares: Vec<(UBig, UBig)> = Vec::new();
    let mut i: usize = 0;
    while i < params.shares
        invariant
            prime@ == params.prime@,
            prime@ >= params.shares,
            prime@ > 0,
            cv == values(coefficients@),
            i <= params.shares,
            shares.len() == i,
            forall|j: int|
                0 <= j < i ==> (#[trigger] shares@[j]).0@ == j + 1 && shares@[j].1@
                    == share_value(params.secret@, cv, (j + 1) as nat, prime@),
        decreases params.shares - i,
    {
        let index = ubig_from_u64((i + 1) as u64);
        let val = polynomial_value(&params.secret, &coefficients, &index, &prime);
        shares.push((index, val));
        i = i + 1;
    }
    Ok(GenerateSharesResult { shares, coefficients, prime })
}

/// The factor that share `j` contributes to the numerator of `L_i(0)`:
/// `x_j` when `x_i < x_j`, else `p - x_j`.
pub open spec fn num_factor(xi: nat, xj: nat, p: nat) -> nat {
    if xi < xj {
        xj % p
    } else {
        (p - xj) as nat
    }
}

/// The factor that share `j` contributes to the denominator of `L_i(0)`: `|x_i - x_j|`.
pub open spec fn den_factor(xi: nat, xj: nat) -> nat {
    if xi < xj {
        (xj - xi) as nat
    } else {
        (xi - xj) as nat
    }
}

/// The numerator of `L_i(0)` over the first `k` shares whose `x` differs from `x_i`.
pub open spec fn basis_numerator(xs: Seq<nat>, i: int, k: int, p: nat) -> nat
    decreases k,
{
    if k <= 0 {
        1
    } else if xs[k - 1] == xs[i] {
        basis_numerator(xs, i, k - 1, p)
    } else {
        basis_numerator(xs, i, k - 1, p) * num_factor(xs[i], xs[k - 1], p)
    }
}

/// The denominator of `L_i(0)` over the first `k` shares whose `x` differs from `x_i`.
pub open spec fn basis_denominator(xs: Seq<nat>, i: int, k: int) -> nat
    decreases k,
{
    if k <= 0 {
        1
    } else if xs[k - 1] == xs[i] {
        basis_denominator(xs, i, k - 1)
    } else {
        basis_denominator(xs, i, k - 1) * den_factor(xs[i], xs[k - 1])
    }
}

/// The denominator of `L_i(0)` is invertible modulo `p`.
pub open spec fn invertible_at(xs: Seq<nat>, p: nat, i: int) -> bool {
    gcd(basis_denominator(xs, i, xs.len() as int), p) == 1
}

/// `L_i(0) mod p`.
pub open spec fn basis_value(xs: Seq<nat>, i: int, p: nat) -> nat {
    ((basis_numerator(xs, i, xs.len() as int, p) % p) * inverse_mod(
        basis_denominator(xs, i, xs.len() as int),
        p,
    )) % p
}

/// `Σ_{i<k} L_i(0) mod p`, summed without reduction.
pub open spec fn basis_total(xs: Seq<nat>, p: nat, k: int) -> nat
    decreases k,
{
    if k <= 0 {
        0
    } else {
        basis_total(xs, p, k - 1) + basis_value(xs, k - 1, p)
    }
}

/// `Σ_{i<k} y_i * L_i(0) mod p`, reduced at each step.
pub open spec fn secret_from(xs: Seq<nat>, ys: Seq<nat>, p: nat, k: int) -> nat
    decreases k,
{
    if k <= 0 {
        0
    } else {
        (secret_from(xs, ys, p, k - 1) + ys[k - 1] * basis_value(xs, k - 1, p)) % p
    }
}

/// Some other share has the same `x` as share `i`.
pub open spec fn has_duplicate(xs: Seq<nat>, i: int) -> bool {
    exists|j: int| 0 <= j < xs.len() && j != i && #[trigger] xs[j] == xs[i]
}

/// The first share that has a duplicate.
pub open spec fn first_duplicate(xs: Seq<nat>) -> int {
    choose|i: int|
        0 <= i < xs.len() && has_duplicate(xs, i) && forall|j: int|
            0 <= j < i ==> !#[trigger] has_duplicate(xs, j)
}

/// The first share whose denominator has no inverse.
pub open spec fn first_non_invertible(xs: Seq<nat>, p: nat) -> int {
    choose|i: int|
        0 <= i < xs.len() && !invertible_at(xs, p, i) && forall|j: int|
            0 <= j < i ==> #[trigger] invertible_at(xs, p, j)
}

/// The first reason `reconstruct` refuses shares `(xs, ys)` modulo `p`, if any.
pub open spec fn reconstruct_error(xs: Seq<nat>, ys: Seq<nat>, p: nat) -> Option<Seq<char>> {
    let n = xs.len() as int;
    if n < 2 {
        Some("there must be more than 1 share"@)
    } else if p < n {
        Some("shares count must be <= prime"@)
    } else if exists|i: int| 0 <= i < n && #[trigger] xs[i] > p {
        Some("x value shouldn't greater than prime"@)
    } else if exists|i: int| 0 <= i < n && #[trigger] xs[i] == 0 {
        Some("x value shouldn't be 0"@)
    } else if exists|i: int| 0 <= i < n && #[trigger] has_duplicate(xs, i) {
        Some(
            "shares must be unique, found duplicate x-coordinates: "@ + decimal_string(
                xs[first_duplicate(xs)],
            ),
        )
    } else if exists|i: int| 0 <= i < n && !#[trigger] invertible_at(xs, p, i) {
        let i = first_non_invertible(xs, p);
        Some(
            "cannot calculate inverse mod for share=("@ + decimal_string(xs[i]) + ", "@
                + decimal_string(ys[i]) + ")"@,
        )
    } else if basis_total(xs, p, n) % p != 1 {
        Some("shares are not in the same polynomial"@)
    } else {
        None
    }
}

proof fn lemma_first_duplicate(xs: Seq<nat>, i: int)
    requires
        0 <= i < xs.len(),
        has_duplicate(xs, i),
        forall|j: int| 0 <= j < i ==> !#[trigger] has_duplicate(xs, j),
    ensures
        first_duplicate(xs) == i,
{
    let f = first_duplicate(xs);
    assert(0 <= f < xs.len() && has_duplicate(xs, f) && forall|k: int|
        0 <= k < f ==> !#[trigger] has_duplicate(xs, k));
    if f < i {
        assert(!has_duplicate(xs, f));
    }
    if f > i {
        assert(!has_duplicate(xs, i));
    }
}

proof fn lemma_first_non_invertible(xs: Seq<nat>, p: nat, i: int)
    requires
        0 <= i < xs.len(),
        !invertible_at(xs, p, i),
        forall|j: int| 0 <= j < i ==> #[trigger] invertible_at(xs, p, j),
    ensures
        first_non_invertible(xs, p) == i,
{
    let f = first_non_invertible(xs, p);
    assert(0 <= f < xs.len() && !invertible_at(xs, p, f) && forall|k: int|
        0 <= k < f ==> #[trigger] invertible_at(xs, p, k));
    if f < i {
        assert(invertible_at(xs, p, f));
    }
    if f > i {
        assert(invertible_at(xs, p, i));
    }
}

fn basis_parts(shares: &Vec<(UBig, UBig)>, i: usize, prime: &UBig) -> (r: (UBig, UBig))
    requires
        i < shares.len(),
        forall|j: int| 0 <= j < shares.len() ==> #[trigger] share_xs(shares@)[j] <= prime@,
    ensures
        r.0@ == basis_numerator(share_xs(shares@), i as int, shares.len() as int, prime@),
        r.1@ == basis_denominator(share_xs(shares@), i as int, shares.len() as int),
{
    let ghost xs = share_xs(shares@);
    let xi = &shares[i].0;
    let mut numerator = UBig::from_u64(1);
    let mut denominator = UBig::from_u64(1);
    let mut j: usize = 0;
    while j < shares.len()
        invariant
            i < shares.len(),
            xs == share_xs(shares@),
            xi@ == xs[i as int],
            forall|j: int| 0 <= j < shares.len() ==> #[trigger] xs[j] <= prime@,
            j <= shares.len(),
            numerator@ == basis_numerator(xs, i as int, j as int, prime@),
            denominator@ == basis_denominator(xs, i as int, j as int),
        decreases shares.len() - j,
    {
        let xj = &shares[j].0;
        assert(xj@ == xs[j as int]);
        if !ubig_eq(xj, xi) {
            if ubig_lt(xi, xj) {
                denominator = ubig_mul(&denominator, &ubig_sub(xj, xi));
                numerator = ubig_mul(&numerator, &ubig_rem(xj, prime));
            } else {
                denominator = ubig_mul(&denominator, &ubig_sub(xi, xj));
                numerator = ubig_mul(&numerator, &ubig_sub(prime, xj));
            }
        }
        j = j + 1;
    }
    (numerator, denominator)
}

/// Recovers the secret from shares `(x, y)` by Lagrange interpolation at zero
/// modulo the prime, after checking the shares.
pub fn reconstruct(params: ReconstructParams) -> (r: Result<ReconstructResult, String>)
    ensures
        ({
            let xs = share_xs(params.shares@);
            let ys = share_ys(params.shares@);
            let p = params.prime@;
            &&& r is Ok <==> reconstruct_error(xs, ys, p) is None
            &&& r matches Err(e) ==> reconstruct_error(xs, ys, p) == Some(e@)
            &&& r matches Ok(res) ==> {
                &&& res.secret@ == secret_from(xs, ys, p, xs.len() as int)
                &&& res.prime@ == p
                &&& values(res.basis_l_vals@) == Seq::new(
                    xs.len(),
                    |i: int| basis_value(xs, i, p),
                )
            }
        }),
{
    let ghost xs = share_xs(params.shares@);
    let ghost ys = share_ys(params.shares@);
    let shares = params.shares;
    let prime = params.prime;
    let n = shares.len();
    if n < 2 {
        return Err(error_message("there must be more than 1 share"));
    }
    let count = ubig_from_u64(n as u64);
    if ubig_lt(&prime, &count) {
        return Err(error_message("shares count must be <= prime"));
    }
    let mut i: usize = 0;
    while i < n
        invariant
            n == shares.len(),
            xs == share_xs(shares@),
            xs == share_xs(params.shares@),
            ys == share_ys(params.shares@),
            prime@ == params.prime@,
            prime@ >= n >= 2,
            i <= n,
            forall|j: int| 0 <= j < i ==> #[trigger] xs[j] <= prime@,
        decreases n - i,
    {
        if ubig_lt(&prime, &shares[i].0) {
            assert(xs[i as int] > prime@);
            return Err(error_message("x value shouldn't greater than prime"));
        }
        i = i + 1;
    }
    let zero = UBig::zero();
    let mut i: usize = 0;
    while i < n
        invariant
            n == shares.len(),
            xs == share_xs(shares@),
            xs == share_xs(params.shares@),
            ys == share_ys(params.shares@),
            prime@ == params.prime@,
            prime@ >= n >= 2,
            zero@ == 0,
            i <= n,
            forall|j: int| 0 <= j < n ==> #[trigger] xs[j] <= prime@,
            forall|j: int| 0 <= j < i ==> #[trigger] xs[j] != 0,
        decreases n - i,
    {
        if ubig_eq(&shares[i].0, &zero) {
            assert(xs[i as int] == 0);
            return Err(error_message("x value shouldn't be 0"));
        }
        i = i + 1;
    }
    let mut i: usize = 0;
    while i < n
        invariant
            n == shares.len(),
            xs == share_xs(shares@),
            xs == share_xs(params.shares@),
            ys == share_ys(params.shares@),
            prime@ == params.prime@,
            prime@ >= n >= 2,
            forall|j: int| 0 <= j < n ==> #[trigger] xs[j] <= prime@,
            forall|j: int| 0 <= j < n ==> #[trigger] xs[j] != 0,
            i <= n,
            forall|j: int| 0 <= j < i ==> !#[trigger] has_duplicate(xs, j),
        decreases n - i,
    {
        let mut j: usize = 0;
        while j < n
            invariant
                n == shares.len(),
                xs == share_xs(shares@),
                xs == share_xs(params.shares@),
                ys == share_ys(params.shares@),
                prime@ == params.prime@,
                prime@ >= n >= 2,
                forall|j: int| 0 <= j < n ==> #[trigger] xs[j] <= prime@,
                forall|j: int| 0 <= j < n ==> #[trigger] xs[j] != 0,
                forall|j: int| 0 <= j < i ==> !#[trigger] has_duplicate(xs, j),
                i < n,
                j <= n,
                forall|k: int| 0 <= k < j && k != i ==> #[trigger] xs[k] != xs[i as int],
            decreases n - j,
        {
            if i != j && ubig_eq(&shares[i].0, &shares[j].0) {
                assert(xs[j as int] == xs[i as int]);
                assert(has_duplicate(xs, i as int));
                proof {
                    lemma_first_duplicate(xs, i as int);
                }
                let mut msg = error_message("shares must be unique, found duplicate x-coordinates: ");
                let dec = ubig_to_decimal(&shares[i].0);
                msg.append(dec.as_str());
                return Err(msg);
            }
            j = j + 1;
        }
        assert(!has_duplicate(xs, i as int));
        i = i + 1;
    }
    let mut l_vec: Vec<UBig> = Vec::new();
    let mut verify = UBig::zero();
    let mut sec = UBig::zero();
    let mut i: usize = 0;
    while i < n
        invariant
            n == shares.len(),
            xs == share_xs(shares@),
            ys == share_ys(shares@),
            xs == share_xs(params.shares@),
            ys == share_ys(params.shares@),
            prime@ == params.prime@,
            prime@ >= n >= 2,
            forall|j: int| 0 <= j < n ==> #[trigger] xs[j] <= prime@,
            forall|j: int| 0 <= j < n ==> !#[trigger] has_duplicate(xs, j),
            forall|j: int| 0 <= j < n ==> #[trigger] xs[j] != 0,
            i <= n,
            forall|j: int| 0 <= j < i ==> #[trigger] invertible_at(xs, prime@, j),
            l_vec.len() == i,
            forall|j: int| 0 <= j < i ==> #[trigger] l_vec@[j]@ == basis_value(xs, j, prime@),
            verify@ == basis_total(xs, prime@, i as int),
            sec@ == secret_from(xs, ys, prime@, i as int),
        decreases n - i,
    {
        let (numerator, denominator) = basis_parts(&shares, i, &prime);
        let inv = match ubig_modinv(&denominator, &prime) {
            Some(v) => v,
            None => {
                assert(!invertible_at(xs, prime@, i as int));
                proof {
                    lemma_first_non_invertible(xs, prime@, i as int);
                }
                assert(shares@[i as int].0@ == xs[i as int]);
                assert(shares@[i as int].1@ == ys[i as int]);
                let mut msg = error_message("cannot calculate inverse mod for share=(");
                let dx = ubig_to_decimal(&shares[i].0);
                msg.append(dx.as_str());
                msg.append(", ");
                let dy = ubig_to_decimal(&shares[i].1);
                msg.append(dy.as_str());
                msg.append(")");
                return Err(msg);
            },
        };
        proof {
            crate::nt::lemma_inverse_unique(denominator@, inv@, prime@);
        }
        let numerator_mod = ubig_rem(&numerator, &prime);
        let l = ubig_rem(&ubig_mul(&numerator_mod, &inv), &prime);
        assert(l@ == basis_value(xs, i as int, prime@));
        verify = ubig_add(&verify, &l);
        let term = ubig_mul(&shares[i].1, &l);
        assert(shares@[i as int].1@ == ys[i as int]);
        sec = ubig_rem(&ubig_add(&sec, &term), &prime);
        l_vec.push(l);
        i = i + 1;
    }
    let one = UBig::from_u64(1);
    let check = ubig_rem(&verify, &prime);
    if !ubig_eq(&check, &one) {
        return Err(error_message("shares are not in the same polynomial"));
    }
    assert(values(l_vec@) == Seq::new(xs.len(), |i: int| basis_value(xs, i, prime@)));
    Ok(ReconstructResult { secret: sec, prime, basis_l_vals: l_vec })
}

} // verus!
