//! Reading numbers and shares from text, as the command lines write them.

use crate::bignum::{decimal_digit, hex_digit, hex_string, UBig};
use num_traits::Num;
use vstd::prelude::*;

verus! {

/// The value of `c` as a digit in bases up to 36; 36 when it is none.
pub open spec fn digit_value(c: char) -> nat {
    if '0' <= c <= '9' {
        (c as nat - '0' as nat) as nat
    } else if 'a' <= c <= 'z' {
        (c as nat - 'a' as nat + 10) as nat
    } else if 'A' <= c <= 'Z' {
        (c as nat - 'A' as nat + 10) as nat
    } else {
        36
    }
}

/// `s` without one leading `+`, unless a second `+` follows it.
pub open spec fn strip_plus(s: Seq<char>) -> Seq<char> {
    if s.len() > 0 && s[0] == '+' && !(s.len() > 1 && s[1] == '+') {
        s.drop_first()
    } else {
        s
    }
}

/// The value of the digits of `t` in base `radix`, underscores skipped.
pub open spec fn radix_value(t: Seq<char>, radix: nat) -> nat
    decreases t.len(),
{
    if t.len() == 0 {
        0
    } else if t.last() == '_' {
        radix_value(t.drop_last(), radix)
    } else {
        radix_value(t.drop_last(), radix) * radix + digit_value(t.last())
    }
}

/// Why `num_bigint` refuses to read `s` in base `radix`, if it does.
pub open spec fn radix_parse_error(s: Seq<char>, radix: nat) -> Option<Seq<char>> {
    let t = strip_plus(s);
    if t.len() == 0 {
        Some("cannot parse integer from empty string"@)
    } else if t[0] == '_' || exists|i: int|
        0 <= i < t.len() && #[trigger] t[i] != '_' && digit_value(t[i]) >= radix {
        Some("invalid digit found in string"@)
    } else {
        None
    }
}

/// `num_traits::Num::from_str_radix` for `BigUint`, with the error's
/// message: refused exactly as `radix_parse_error` says, else the value of
/// the digits. It panics unless `2 <= radix <= 36`.
#[verifier::external_body]
pub(crate) fn ubig_from_str_radix(s: &str, radix: u32) -> (r: Result<UBig, String>)
    requires
        2 <= radix <= 36,
    ensures
        r is Ok <==> radix_parse_error(s@, radix as nat) is None,
        r matches Err(e) ==> radix_parse_error(s@, radix as nat) == Some(e@),
        r matches Ok(v) ==> v@ == radix_value(strip_plus(s@), radix as nat),
{
    match num_bigint::BigUint::from_str_radix(s, radix) {
        Ok(v) => Ok(UBig { le_bytes: v.to_bytes_le() }),
        Err(e) => Err(e.to_string()),
    }
}

/// The `Debug` writing of a string: quoted, with special characters escaped.
pub uninterp spec fn debug_string(s: Seq<char>) -> Seq<char>;

/// `format!("{:?}", s)`.
#[verifier::external_body]
pub(crate) fn str_debug(s: &str) -> (r: String)
    ensures
        r@ == debug_string(s@),
{
    format!("{:?}", s)
}

/// `s` is an unsigned decimal number as `usize::from_str` reads it: an
/// optional `+`, then at least one digit.
pub open spec fn is_decimal(s: Seq<char>) -> bool {
    let t = if s.len() > 1 && s[0] == '+' {
        s.drop_first()
    } else {
        s
    };
    t.len() > 0 && forall|i: int| 0 <= i < t.len() ==> '0' <= #[trigger] t[i] <= '9'
}

/// The value of an unsigned decimal number.
pub open spec fn decimal_value(s: Seq<char>) -> nat {
    if s.len() > 1 && s[0] == '+' {
        radix_value(s.drop_first(), 10)
    } else {
        radix_value(s, 10)
    }
}

/// The `Debug` writing of the error with which `str::parse::<usize>` refuses `s`.
pub uninterp spec fn usize_parse_error_debug(s: Seq<char>) -> Seq<char>;

/// `str::parse::<usize>`, with the `Debug` writing of its error. It succeeds
/// exactly on decimal numbers that fit, with their value.
#[verifier::external_body]
pub(crate) fn parse_usize(s: &str) -> (r: Result<usize, String>)
    ensures
        r is Ok <==> (is_decimal(s@) && decimal_value(s@) <= usize::MAX),
        r is Ok ==> r->Ok_0 == decimal_value(s@),
        r matches Err(e) ==> e@ == usize_parse_error_debug(s@),
{
    match s.parse::<usize>() {
        Ok(v) => Ok(v),
        Err(e) => Err(format!("{:?}", e)),
    }
}

/// The pieces of `s` between the separator `sep`.
pub open spec fn split_spec(s: Seq<char>, sep: char) -> Seq<Seq<char>>
    decreases s.len(),
{
    if s.len() == 0 {
        seq![Seq::<char>::empty()]
    } else {
        let init = split_spec(s.drop_last(), sep);
        if s.last() == sep {
            init.push(Seq::<char>::empty())
        } else {
            init.update(init.len() - 1, init.last().push(s.last()))
        }
    }
}

proof fn lemma_split_nonempty(s: Seq<char>, sep: char)
    ensures
        split_spec(s, sep).len() >= 1,
    decreases s.len(),
{
    if s.len() > 0 {
        lemma_split_nonempty(s.drop_last(), sep);
    }
}

/// `s.split(sep)`.
pub fn split<'a>(s: &'a str, sep: char) -> (r: Vec<&'a str>)
    ensures
        r@.len() == split_spec(s@, sep).len(),
        forall|i: int| 0 <= i < r@.len() ==> #[trigger] r@[i]@ == split_spec(s@, sep)[i],
{
    let n = s.unicode_len();
    let mut pieces: Vec<&'a str> = Vec::new();
    let mut start: usize = 0;
    let mut i: usize = 0;
    while i < n
        invariant
            n == s@.len(),
            start <= i <= n,
            pieces@.len() + 1 == split_spec(s@.take(i as int), sep).len(),
            forall|j: int| 0 <= j < pieces@.len() ==> #[trigger] pieces@[j]@ == split_spec(s@.take(i as int), sep)[j],
            s@.subrange(start as int, i as int) == split_spec(s@.take(i as int), sep).last(),
        decreases n - i,
    {
        proof {
            lemma_split_nonempty(s@.take(i as int), sep);
            assert(s@.take(i + 1).drop_last() == s@.take(i as int));
            assert(s@.take(i + 1).last() == s@[i as int]);
        }
        let c = s.get_char(i);
        if c == sep {
            pieces.push(s.substring_char(start, i));
            start = i + 1;
            assert(s@.subrange(start as int, i + 1) == Seq::<char>::empty());
        } else {
            assert(s@.subrange(start as int, i + 1) == s@.subrange(start as int, i as int).push(c));
        }
        i = i + 1;
    }
    pieces.push(s.substring_char(start, n));
    assert(s@.take(n as int) == s@);
    pieces
}

/// `s` starts with `0x` or `0X`.
pub open spec fn has_hex_prefix(s: Seq<char>) -> bool {
    s.len() >= 2 && s[0] == '0' && (s[1] == 'x' || s[1] == 'X')
}

/// Why `parse_biguint` refuses `s`, if it does.
pub open spec fn biguint_text_error(s: Seq<char>) -> Option<Seq<char>> {
    if has_hex_prefix(s) {
        radix_parse_error(s.skip(2), 16)
    } else {
        radix_parse_error(s, 10)
    }
}

/// The number that `parse_biguint` reads from `s`.
pub open spec fn biguint_text_value(s: Seq<char>) -> nat {
    if has_hex_prefix(s) {
        radix_value(strip_plus(s.skip(2)), 16)
    } else {
        radix_value(strip_plus(s), 10)
    }
}

/// Reads a number written in decimal, or in hexadecimal after `0x` or `0X`.
pub fn parse_biguint(s: &str) -> (r: Result<UBig, String>)
    ensures
        r is Ok <==> biguint_text_error(s@) is None,
        r matches Err(e) ==> biguint_text_error(s@) == Some(e@),
        r matches Ok(v) ==> v@ == biguint_text_value(s@),
{
    let n = s.unicode_len();
    if n >= 2 && s.get_char(0) == '0' && (s.get_char(1) == 'x' || s.get_char(1) == 'X') {
        let rest = s.substring_char(2, n);
        assert(rest@ == s@.skip(2));
        ubig_from_str_radix(rest, 16)
    } else {
        ubig_from_str_radix(s, 10)
    }
}

/// Reads a number written in decimal.
pub fn parse_decimal(s: &str) -> (r: Result<UBig, String>)
    ensures
        r is Ok <==> radix_parse_error(s@, 10) is None,
        r matches Err(e) ==> radix_parse_error(s@, 10) == Some(e@),
        r matches Ok(v) ==> v@ == radix_value(strip_plus(s@), 10),
{
    ubig_from_str_radix(s, 10)
}

/// Reads a number written in hexadecimal, with or without `0x`.
pub fn hex_to_biguint(s: &str) -> (r: Result<UBig, String>)
    ensures
        r is Ok <==> radix_parse_error(hex_digits(s@), 16) is None,
        r matches Err(e) ==> radix_parse_error(hex_digits(s@), 16) == Some(e@),
        r matches Ok(v) ==> v@ == hex_value(s@),
{
    let n = s.unicode_len();
    if n >= 2 && s.get_char(0) == '0' && (s.get_char(1) == 'x' || s.get_char(1) == 'X') {
        let rest = s.substring_char(2, n);
        assert(rest@ == s@.skip(2));
        ubig_from_str_radix(rest, 16)
    } else {
        ubig_from_str_radix(s, 16)
    }
}

/// The message of a refused reading of one part of a share.
pub open spec fn part_error(name: Seq<char>, part: Seq<char>, input: Seq<char>, e: Seq<char>, sep: Seq<char>) -> Seq<char> {
    "cannot parse "@ + name + "="@ + part + " of share="@ + debug_string(input) + sep + debug_string(e)
}

fn part_error_message(name: &str, part: &str, input: &str, e: &str, sep: &str) -> (r: String)
    ensures
        r@ == part_error(name@, part@, input@, e@, sep@),
{
    let mut msg = String::from_str("cannot parse ");
    msg.append(name);
    msg.append("=");
    msg.append(part);
    msg.append(" of share=");
    msg.append(str_debug(input).as_str());
    msg.append(sep);
    msg.append(str_debug(e).as_str());
    msg
}

/// Reads a share `index:s:t` for verification.
pub fn parse_verify_share_param(input: &str) -> (r: Result<(usize, UBig, UBig), String>)
    ensures
        ({
            let p = split_spec(input@, ':');
            &&& p.len() != 3 ==> (r is Err && r->Err_0@
                == "share value must be in format index:s:t, receive: "@ + debug_string(input@))
            &&& p.len() == 3 ==> {
                &&& r is Ok <==> (is_decimal(p[0]) && decimal_value(p[0]) <= usize::MAX
                    && biguint_text_error(p[1]) is None && biguint_text_error(p[2]) is None)
                &&& r matches Ok(v) ==> v.0 == decimal_value(p[0]) && v.1@ == biguint_text_value(
                    p[1],
                ) && v.2@ == biguint_text_value(p[2])
                &&& (r is Err && is_decimal(p[0]) && decimal_value(p[0]) <= usize::MAX) ==> (
                if biguint_text_error(p[1]) is Some {
                    r->Err_0@ == part_error("s"@, p[1], input@, biguint_text_error(p[1])->0, " error: "@)
                } else {
                    r->Err_0@ == part_error("t"@, p[2], input@, biguint_text_error(p[2])->0, " error: "@)
                })
                &&& (r is Err && !(is_decimal(p[0]) && decimal_value(p[0]) <= usize::MAX))
                    ==> r->Err_0@ == "cannot parse index value "@ + p[0] + ", error: "@
                    + usize_parse_error_debug(p[0])
            }
        }),
{
    let vals = split(input, ':');
    if vals.len() != 3 {
        let mut msg = String::from_str("share value must be in format index:s:t, receive: ");
        msg.append(str_debug(input).as_str());
        return Err(msg);
    }
    let index = match parse_usize(vals[0]) {
        Ok(v) => v,
        Err(e) => {
            let mut msg = String::from_str("cannot parse index value ");
            msg.append(vals[0]);
            msg.append(", error: ");
            msg.append(e.as_str());
            return Err(msg);
        },
    };
    let s = match parse_biguint(vals[1]) {
        Ok(v) => v,
        Err(e) => {
            return Err(part_error_message("s", vals[1], input, e.as_str(), " error: "));
        },
    };
    let t = match parse_biguint(vals[2]) {
        Ok(v) => v,
        Err(e) => {
            return Err(part_error_message("t", vals[2], input, e.as_str(), " error: "));
        },
    };
    Ok((index, s, t))
}

/// Reads a share `x:y`, each part in decimal or, after `0x`, hexadecimal.
pub fn parse_reconstruct_shares_param(val: &str) -> (r: Result<(UBig, UBig), String>)
    ensures
        ({
            let p = split_spec(val@, ':');
            &&& p.len() != 2 ==> (r is Err && r->Err_0@ == "cannot parse share param: "@
                + debug_string(val@))
            &&& p.len() == 2 ==> {
                &&& r is Ok <==> (biguint_text_error(p[0]) is None && biguint_text_error(p[1]) is None)
                &&& r matches Ok(v) ==> v.0@ == biguint_text_value(p[0]) && v.1@ == biguint_text_value(p[1])
                &&& r is Err ==> if biguint_text_error(p[0]) is Some {
                    r->Err_0@ == part_error("x"@, p[0], val@, biguint_text_error(p[0])->0, " error: "@)
                } else {
                    r->Err_0@ == part_error("y"@, p[1], val@, biguint_text_error(p[1])->0, " error: "@)
                }
            }
        }),
{
    let s = split(val, ':');
    if s.len() != 2 {
        let mut msg = String::from_str("cannot parse share param: ");
        msg.append(str_debug(val).as_str());
        return Err(msg);
    }
    let x = match parse_biguint(s[0]) {
        Ok(v) => v,
        Err(e) => {
            return Err(part_error_message("x", s[0], val, e.as_str(), " error: "));
        },
    };
    let y = match parse_biguint(s[1]) {
        Ok(v) => v,
        Err(e) => {
            return Err(part_error_message("y", s[1], val, e.as_str(), " error: "));
        },
    };
    Ok((x, y))
}

/// The `Debug` writing of the error with which `BigUint::from_str` refuses
/// `s`: the derived writing of `ParseBigIntError`, whose kind is `Empty` when
/// nothing is left to read and `InvalidDigit` otherwise.
pub open spec fn from_str_error_debug(s: Seq<char>) -> Seq<char> {
    if strip_plus(s).len() == 0 {
        "ParseBigIntError { kind: Empty }"@
    } else {
        "ParseBigIntError { kind: InvalidDigit }"@
    }
}

/// `BigUint::from_str`, with the `Debug` writing of its error: refused
/// exactly as reading in base 10 is, else the value of the digits.
#[verifier::external_body]
pub(crate) fn ubig_from_str(s: &str) -> (r: Result<UBig, String>)
    ensures
        r is Ok <==> radix_parse_error(s@, 10) is None,
        r matches Err(e) ==> e@ == from_str_error_debug(s@),
        r matches Ok(v) ==> v@ == radix_value(strip_plus(s@), 10),
{
    match <num_bigint::BigUint as std::str::FromStr>::from_str(s) {
        Ok(v) => Ok(UBig { le_bytes: v.to_bytes_le() }),
        Err(e) => Err(format!("{:?}", e)),
    }
}

/// The message of a refused reading of one part of a decimal share.
pub open spec fn decimal_part_error(name: Seq<char>, part: Seq<char>, input: Seq<char>, sep: Seq<char>) -> Seq<char> {
    "cannot parse "@ + name + "="@ + part + " of share="@ + debug_string(input) + sep + from_str_error_debug(part)
}

/// Reads a share `x:y` written in decimal.
pub fn parse_shares_param(val: &str) -> (r: Result<(UBig, UBig), String>)
    ensures
        ({
            let p = split_spec(val@, ':');
            &&& p.len() != 2 ==> (r is Err && r->Err_0@ == "cannot parse share param: "@
                + debug_string(val@))
            &&& p.len() == 2 ==> {
                &&& r is Ok <==> (radix_parse_error(p[0], 10) is None && radix_parse_error(p[1], 10) is None)
                &&& r matches Ok(v) ==> v.0@ == radix_value(strip_plus(p[0]), 10) && v.1@
                    == radix_value(strip_plus(p[1]), 10)
                &&& r is Err ==> if radix_parse_error(p[0], 10) is Some {
                    r->Err_0@ == decimal_part_error("x"@, p[0], val@, " . error: "@)
                } else {
                    r->Err_0@ == decimal_part_error("y"@, p[1], val@, " . Error: "@)
                }
            }
        }),
{
    let s = split(val, ':');
    if s.len() != 2 {
        let mut msg = String::from_str("cannot parse share param: ");
        msg.append(str_debug(val).as_str());
        return Err(msg);
    }
    let x = match ubig_from_str(s[0]) {
        Ok(v) => v,
        Err(e) => {
            let mut msg = String::from_str("cannot parse ");
            msg.append("x");
            msg.append("=");
            msg.append(s[0]);
            msg.append(" of share=");
            msg.append(str_debug(val).as_str());
            msg.append(" . error: ");
            msg.append(e.as_str());
            return Err(msg);
        },
    };
    let y = match ubig_from_str(s[1]) {
        Ok(v) => v,
        Err(e) => {
            let mut msg = String::from_str("cannot parse ");
            msg.append("y");
            msg.append("=");
            msg.append(s[1]);
            msg.append(" of share=");
            msg.append(str_debug(val).as_str());
            msg.append(" . Error: ");
            msg.append(e.as_str());
            return Err(msg);
        },
    };
    Ok((x, y))
}

/// A number as the command lines print it: `0x` and hexadecimal, or decimal.
pub fn format_number(n: &UBig, hex: bool) -> (r: String)
    ensures
        hex ==> r@ == hex_text(n@),
        !hex ==> r@ == crate::bignum::decimal_string(n@),
{
    if hex {
        crate::bignum::ubig_to_hex(n)
    } else {
        crate::bignum::ubig_to_decimal(n)
    }
}

/// `s` without a leading `0x` or `0X`.
pub open spec fn hex_digits(s: Seq<char>) -> Seq<char> {
    if has_hex_prefix(s) {
        s.skip(2)
    } else {
        s
    }
}

/// `0x` and the lower-case hexadecimal writing of `v`.
pub open spec fn hex_text(v: nat) -> Seq<char> {
    seq!['0', 'x'] + hex_string(v)
}

/// The value of a hexadecimal text, with or without `0x`.
pub open spec fn hex_value(s: Seq<char>) -> nat {
    radix_value(strip_plus(hex_digits(s)), 16)
}

proof fn lemma_hex_digit_value(d: nat)
    requires
        d < 16,
    ensures
        digit_value(hex_digit(d)) == d,
        hex_digit(d) != '_',
        hex_digit(d) != '+',
{
}

proof fn lemma_hex_string_reads(v: nat)
    ensures
        hex_string(v).len() > 0,
        forall|i: int| 0 <= i < hex_string(v).len() ==> digit_value(#[trigger] hex_string(v)[i]) < 16
            && hex_string(v)[i] != '_' && hex_string(v)[i] != '+',
        radix_value(hex_string(v), 16) == v,
    decreases v,
{
    let h = hex_string(v);
    if v < 16 {
        lemma_hex_digit_value(v);
        assert(h.drop_last().len() == 0);
        assert(h.last() == hex_digit(v));
        assert(radix_value(h, 16) == radix_value(h.drop_last(), 16) * 16 + digit_value(h.last()));
    } else {
        lemma_hex_string_reads(v / 16);
        lemma_hex_digit_value(v % 16);
        let p = hex_string(v / 16);
        assert(h.drop_last() == p);
        assert(h.last() == hex_digit(v % 16));
        assert(radix_value(h, 16) == radix_value(p, 16) * 16 + digit_value(h.last()));
        vstd::arithmetic::div_mod::lemma_fundamental_div_mod(v as int, 16);
        assert forall|i: int| 0 <= i < h.len() implies digit_value(#[trigger] h[i]) < 16 && h[i]
            != '_' && h[i] != '+' by {
            if i < p.len() {
                assert(h[i] == p[i]);
            }
        }
    }
}

/// A number written in hexadecimal, as the key records hold it, reads back
/// as the same number.
pub proof fn lemma_hex_roundtrip(v: nat)
    ensures
        radix_parse_error(hex_digits(hex_text(v)), 16) is None,
        hex_value(hex_text(v)) == v,
{
    let t = hex_text(v);
    lemma_hex_string_reads(v);
    assert(t.skip(2) == hex_string(v));
    assert(hex_digits(t) == hex_string(v));
    assert(strip_plus(hex_string(v)) == hex_string(v));
}

} // verus!
