//! Unsigned integers of any size, written as little-endian bytes, with the
//! arithmetic of `num_bigint::BigUint`.

use crate::arith::le_value;
use crate::nt::gcd;
use vstd::arithmetic::power::pow;
use num_bigint::RandBigInt;
use vstd::prelude::*;

verus! {

/// An unsigned integer of any size; its value is that of its little-endian bytes.
#[derive(Clone, Debug)]
pub struct UBig {
    pub le_bytes: Vec<u8>,
}

impl View for UBig {
    type V = nat;

    open spec fn view(&self) -> nat {
        le_value(self.le_bytes@)
    }
}

/// The character of the decimal digit `d < 10`.
pub open spec fn decimal_digit(d: nat) -> char {
    if d == 0 {
        '0'
    } else if d == 1 {
        '1'
    } else if d == 2 {
        '2'
    } else if d == 3 {
        '3'
    } else if d == 4 {
        '4'
    } else if d == 5 {
        '5'
    } else if d == 6 {
        '6'
    } else if d == 7 {
        '7'
    } else if d == 8 {
        '8'
    } else {
        '9'
    }
}

/// The usual decimal writing of `n`, without leading zeros.
pub open spec fn decimal_string(n: nat) -> Seq<char>
    decreases n,
{
    if n < 10 {
        seq![decimal_digit(n)]
    } else {
        decimal_string(n / 10) + seq![decimal_digit(n % 10)]
    }
}

/// The character of the hexadecimal digit `d < 16`, in lower case.
pub open spec fn hex_digit(d: nat) -> char {
    if d < 10 {
        decimal_digit(d)
    } else if d == 10 {
        'a'
    } else if d == 11 {
        'b'
    } else if d == 12 {
        'c'
    } else if d == 13 {
        'd'
    } else if d == 14 {
        'e'
    } else {
        'f'
    }
}

/// The lower-case hexadecimal writing of `n`, without leading zeros.
pub open spec fn hex_string(n: nat) -> Seq<char>
    decreases n,
{
    if n < 16 {
        seq![hex_digit(n)]
    } else {
        hex_string(n / 16) + seq![hex_digit(n % 16)]
    }
}

/// `num_bigint`'s `BigUint::from(u64)`.
#[verifier::external_body]
pub(crate) fn ubig_from_u64(n: u64) -> (r: UBig)
    ensures
        r@ == n,
{
    UBig { le_bytes: num_bigint::BigUint::from(n).to_bytes_le() }
}

/// `num_bigint`'s addition `a + b`: the sum of the values.
#[verifier::external_body]
pub(crate) fn ubig_add(a: &UBig, b: &UBig) -> (r: UBig)
    ensures
        r@ == a@ + b@,
{
    let x = num_bigint::BigUint::from_bytes_le(&a.le_bytes);
    let y = num_bigint::BigUint::from_bytes_le(&b.le_bytes);
    UBig { le_bytes: (x + y).to_bytes_le() }
}

/// `num_bigint`'s subtraction `a - b`, which panics when `b > a`.
#[verifier::external_body]
pub(crate) fn ubig_sub(a: &UBig, b: &UBig) -> (r: UBig)
    requires
        b@ <= a@,
    ensures
        r@ == a@ - b@,
{
    let x = num_bigint::BigUint::from_bytes_le(&a.le_bytes);
    let y = num_bigint::BigUint::from_bytes_le(&b.le_bytes);
    UBig { le_bytes: (x - y).to_bytes_le() }
}

/// `num_bigint`'s multiplication `a * b`: the product of the values.
#[verifier::external_body]
pub(crate) fn ubig_mul(a: &UBig, b: &UBig) -> (r: UBig)
    ensures
        r@ == a@ * b@,
{
    let x = num_bigint::BigUint::from_bytes_le(&a.le_bytes);
    let y = num_bigint::BigUint::from_bytes_le(&b.le_bytes);
    UBig { le_bytes: (x * y).to_bytes_le() }
}

/// `num_bigint`'s remainder `a % m`, which panics when `m` is zero.
#[verifier::external_body]
pub(crate) fn ubig_rem(a: &UBig, m: &UBig) -> (r: UBig)
    requires
        m@ > 0,
    ensures
        r@ == a@ % m@,
{
    let x = num_bigint::BigUint::from_bytes_le(&a.le_bytes);
    let y = num_bigint::BigUint::from_bytes_le(&m.le_bytes);
    UBig { le_bytes: (x % y).to_bytes_le() }
}

/// `num_bigint`'s `BigUint::modinv`: the inverse of `a` modulo `m` in `[0, m)`,
/// which exists exactly when `gcd(a, m) == 1`; it panics when `m` is zero.
#[verifier::external_body]
pub(crate) fn ubig_modinv(a: &UBig, m: &UBig) -> (r: Option<UBig>)
    requires
        m@ > 0,
    ensures
        r is Some <==> gcd(a@, m@) == 1,
        r matches Some(x) ==> x@ < m@ && (a@ * x@) % m@ == 1nat % m@,
{
    let x = num_bigint::BigUint::from_bytes_le(&a.le_bytes);
    let y = num_bigint::BigUint::from_bytes_le(&m.le_bytes);
    match x.modinv(&y) {
        Some(v) => Some(UBig { le_bytes: v.to_bytes_le() }),
        None => None,
    }
}

/// `num_bigint`'s comparison `a < b`.
#[verifier::external_body]
pub(crate) fn ubig_lt(a: &UBig, b: &UBig) -> (r: bool)
    ensures
        r == (a@ < b@),
{
    let x = num_bigint::BigUint::from_bytes_le(&a.le_bytes);
    let y = num_bigint::BigUint::from_bytes_le(&b.le_bytes);
    x < y
}

/// `num_bigint`'s equality `a == b`.
#[verifier::external_body]
pub(crate) fn ubig_eq(a: &UBig, b: &UBig) -> (r: bool)
    ensures
        r == (a@ == b@),
{
    let x = num_bigint::BigUint::from_bytes_le(&a.le_bytes);
    let y = num_bigint::BigUint::from_bytes_le(&b.le_bytes);
    x == y
}

/// `num_bigint`'s `RandBigInt::gen_biguint_range` on the thread's random
/// generator: some value in `[lo, hi)`; it panics unless `lo < hi`.
#[verifier::external_body]
pub(crate) fn ubig_gen_range(lo: &UBig, hi: &UBig) -> (r: UBig)
    requires
        lo@ < hi@,
    ensures
        lo@ <= r@ < hi@,
{
    let x = num_bigint::BigUint::from_bytes_le(&lo.le_bytes);
    let y = num_bigint::BigUint::from_bytes_le(&hi.le_bytes);
    UBig { le_bytes: rand::thread_rng().gen_biguint_range(&x, &y).to_bytes_le() }
}

/// `num_bigint`'s `RandBigInt::gen_biguint` on the thread's random generator:
/// some number of at most `bits` bits.
#[verifier::external_body]
pub(crate) fn ubig_gen_bits(bits: u64) -> (r: UBig)
    ensures
        r@ < pow(2, bits as nat),
{
    UBig { le_bytes: rand::thread_rng().gen_biguint(bits).to_bytes_le() }
}

/// `num_bigint`'s `Display` (and `Debug`) for `BigUint`: the decimal writing.
#[verifier::external_body]
pub(crate) fn ubig_to_decimal(a: &UBig) -> (r: String)
    ensures
        r@ == decimal_string(a@),
{
    let x = num_bigint::BigUint::from_bytes_le(&a.le_bytes);
    format!("{}", x)
}

/// `num_bigint`'s `LowerHex` for `BigUint` in the alternate form: `0x` and
/// the lower-case hexadecimal writing.
#[verifier::external_body]
pub(crate) fn ubig_to_hex(a: &UBig) -> (r: String)
    ensures
        r@ == seq!['0', 'x'] + hex_string(a@),
{
    let x = num_bigint::BigUint::from_bytes_le(&a.le_bytes);
    format!("{:#x}", x)
}

/// The text of the decimal digit `d < 10`.
fn digit_text(d: usize) -> (r: &'static str)
    requires
        d < 10,
    ensures
        r@ == seq![decimal_digit(d as nat)],
{
    if d == 0 {
        proof { reveal_strlit("0"); }
        "0"
    } else if d == 1 {
        proof { reveal_strlit("1"); }
        "1"
    } else if d == 2 {
        proof { reveal_strlit("2"); }
        "2"
    } else if d == 3 {
        proof { reveal_strlit("3"); }
        "3"
    } else if d == 4 {
        proof { reveal_strlit("4"); }
        "4"
    } else if d == 5 {
        proof { reveal_strlit("5"); }
        "5"
    } else if d == 6 {
        proof { reveal_strlit("6"); }
        "6"
    } else if d == 7 {
        proof { reveal_strlit("7"); }
        "7"
    } else if d == 8 {
        proof { reveal_strlit("8"); }
        "8"
    } else {
        proof { reveal_strlit("9"); }
        "9"
    }
}

/// The decimal writing of `n`.
pub(crate) fn usize_to_decimal(n: usize) -> (r: String)
    ensures
        r@ == decimal_string(n as nat),
{
    let mut m = n;
    let mut acc = String::new();
    while m >= 10
        invariant
            decimal_string(n as nat) == decimal_string(m as nat) + acc@,
        decreases m,
    {
        let mut t = String::from_str(digit_text(m % 10));
        t.append(acc.as_str());
        proof {
            assert(decimal_string(m as nat) == decimal_string((m / 10) as nat) + seq![
                decimal_digit((m % 10) as nat),
            ]);
            assert(decimal_string(n as nat) == decimal_string((m / 10) as nat) + t@);
        }
        acc = t;
        m = m / 10;
    }
    let mut t = String::from_str(digit_text(m));
    t.append(acc.as_str());
    t
}

impl UBig {
    /// The number zero.
    pub fn zero() -> (r: UBig)
        ensures
            r@ == 0,
    {
        UBig { le_bytes: Vec::new() }
    }

    /// The number `n`.
    pub fn from_u64(n: u64) -> (r: UBig)
        ensures
            r@ == n,
    {
        ubig_from_u64(n)
    }

    /// A copy of this number.
    pub fn copy(&self) -> (r: UBig)
        ensures
            r@ == self@,
    {
        UBig { le_bytes: self.le_bytes.clone() }
    }
}

impl PartialEq for UBig {
    fn eq(&self, other: &UBig) -> (r: bool) {
        ubig_eq(self, other)
    }
}

impl vstd::std_specs::cmp::PartialEqSpecImpl for UBig {
    open spec fn obeys_eq_spec() -> bool {
        true
    }

    open spec fn eq_spec(&self, other: &UBig) -> bool {
        self@ == other@
    }
}

proof fn lemma_decimal_digit_injective(a: nat, b: nat)
    requires
        a < 10,
        b < 10,
        decimal_digit(a) == decimal_digit(b),
    ensures
        a == b,
{
}

/// Different numbers have different decimal writings.
pub proof fn lemma_decimal_string_injective(a: nat, b: nat)
    requires
        decimal_string(a) == decimal_string(b),
    ensures
        a == b,
    decreases a,
{
    if a < 10 && b < 10 {
        assert(decimal_string(a)[0] == decimal_digit(a));
        assert(decimal_string(b)[0] == decimal_digit(b));
        lemma_decimal_digit_injective(a, b);
    } else if a < 10 {
        lemma_decimal_string_nonempty(b / 10);
        assert(decimal_string(b).len() >= 2);
    } else if b < 10 {
        lemma_decimal_string_nonempty(a / 10);
        assert(decimal_string(a).len() >= 2);
    } else {
        let sa = decimal_string(a);
        let sb = decimal_string(b);
        assert(sa.last() == sb.last());
        assert(sa.last() == decimal_digit(a % 10));
        assert(sb.last() == decimal_digit(b % 10));
        assert(sa.drop_last() == decimal_string(a / 10));
        assert(sb.drop_last() == decimal_string(b / 10));
        lemma_decimal_string_injective(a / 10, b / 10);
        lemma_decimal_digit_injective(a % 10, b % 10);
    }
}

proof fn lemma_decimal_string_nonempty(n: nat)
    ensures
        decimal_string(n).len() >= 1,
    decreases n,
{
    if n >= 10 {
        lemma_decimal_string_nonempty(n / 10);
    }
}

} // verus!
