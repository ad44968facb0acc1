//! Byte-level text helpers shared by the protocol modules.
//!
//! Wire text is handled as bytes.  A string literal stands for its UTF-8
//! encoding, written `text("...")` in contracts.
use vstd::prelude::*;
use vstd::string::*;
use vstd::utf8::*;

verus! {

pub const SPACE: u8 = 0x20;

pub const TAB: u8 = 0x09;

pub const CARRIAGE_RETURN: u8 = 0x0d;

pub const NEWLINE: u8 = 0x0a;

pub const EQUALS: u8 = 0x3d;

pub const DIGIT_ZERO: u8 = 0x30;

/// The bytes that a string stands for on the wire: its UTF-8 encoding.
pub open spec fn text(s: &str) -> Seq<u8> {
    s.spec_bytes()
}

/// Whether `a` and `b` hold the same bytes.
pub fn bytes_eq(a: &[u8], b: &[u8]) -> (r: bool)
    ensures
        r == (a@ == b@),
{
    if a.len() != b.len() {
        return false;
    }
    let mut i: usize = 0;
    while i < a.len()
        invariant
            i <= a.len(),
            a.len() == b.len(),
            forall|j: int| 0 <= j < i ==> a@[j] == b@[j],
        decreases a.len() - i,
    {
        if a[i] != b[i] {
            return false;
        }
        i += 1;
    }
    assert(a@ =~= b@);
    true
}

/// Two strings are equal exactly when their encodings are.
pub proof fn lemma_text_injective(a: &str, b: &str)
    ensures
        (text(a) == text(b)) <==> (a@ == b@),
{
    encode_utf8_decode_utf8(a@);
    encode_utf8_decode_utf8(b@);
}

/// Whether `a` and `b` are the same string.
pub fn str_eq(a: &str, b: &str) -> (r: bool)
    ensures
        r == (a@ == b@),
{
    proof {
        lemma_text_injective(a, b);
    }
    bytes_eq(a.as_bytes(), b.as_bytes())
}

/// Whether the bytes spell out the string `s`.
pub fn is_text(a: &[u8], s: &str) -> (r: bool)
    ensures
        r == (a@ == text(s)),
{
    bytes_eq(a, s.as_bytes())
}

/// Appends the encoding of `s` to `out`.
pub fn push_text(out: &mut Vec<u8>, s: &str)
    ensures
        final(out)@ == old(out)@ + text(s),
{
    out.extend_from_slice(s.as_bytes());
}

/// Appends `bytes` to `out`.
pub fn push_bytes(out: &mut Vec<u8>, bytes: &[u8])
    ensures
        final(out)@ == old(out)@ + bytes@,
{
    out.extend_from_slice(bytes);
}

/// A fresh vector holding the encoding of `s`.
pub fn text_vec(s: &str) -> (r: Vec<u8>)
    ensures
        r@ == text(s),
{
    let mut out: Vec<u8> = Vec::new();
    push_text(&mut out, s);
    out
}

/// A fresh vector holding a copy of `bytes`.
pub fn copy_bytes(bytes: &[u8]) -> (r: Vec<u8>)
    ensures
        r@ == bytes@,
{
    let mut out: Vec<u8> = Vec::new();
    push_bytes(&mut out, bytes);
    out
}

/// The ASCII digit for `d`, which is below ten.
pub open spec fn digit(d: nat) -> u8
    recommends
        d < 10,
{
    (DIGIT_ZERO + d) as u8
}

/// The decimal numeral of `n`, without sign or leading zeros.
pub open spec fn decimal(n: nat) -> Seq<u8>
    decreases n,
{
    if n < 10 {
        seq![digit(n)]
    } else {
        decimal(n / 10).push(digit(n % 10))
    }
}

/// Writes `n` as a decimal numeral.
pub fn format_decimal(n: usize) -> (r: Vec<u8>)
    ensures
        r@ == decimal(n as nat),
    decreases n,
{
    if n < 10 {
        let mut out: Vec<u8> = Vec::new();
        out.push(DIGIT_ZERO + n as u8);
        out
    } else {
        let mut out = format_decimal(n / 10);
        out.push(DIGIT_ZERO + (n % 10) as u8);
        out
    }
}

pub open spec fn is_digit(b: u8) -> bool {
    DIGIT_ZERO <= b <= DIGIT_ZERO + 9
}

pub open spec fn all_digits(s: Seq<u8>) -> bool {
    forall|i: int| 0 <= i < s.len() ==> is_digit(#[trigger] s[i])
}

/// The number that a run of digits denotes, most significant digit first.
pub open spec fn digits_value(s: Seq<u8>) -> nat
    decreases s.len(),
{
    if s.len() == 0 {
        0
    } else {
        digits_value(s.drop_last()) * 10 + (s.last() - DIGIT_ZERO) as nat
    }
}

/// The number that `s` denotes, if `s` is a non-empty run of ASCII digits.
pub open spec fn decimal_value(s: Seq<u8>) -> Option<nat> {
    if s.len() > 0 && all_digits(s) {
        Some(digits_value(s))
    } else {
        None
    }
}

/// A run of digits denotes at least what any of its prefixes denotes.
pub proof fn lemma_digits_value_monotonic(s: Seq<u8>, i: int)
    requires
        all_digits(s),
        0 <= i <= s.len(),
    ensures
        digits_value(s.take(i)) <= digits_value(s),
    decreases s.len() - i,
{
    if i == s.len() {
        assert(s.take(i) =~= s);
    } else {
        lemma_digits_value_monotonic(s, i + 1);
        assert(s.take(i + 1).drop_last() =~= s.take(i));
    }
}

/// Reads a decimal numeral.  `None` when `s` is empty, holds anything but
/// ASCII digits, or denotes a number that `usize` cannot hold.
pub fn parse_decimal(s: &[u8]) -> (r: Option<usize>)
    ensures
        r == match decimal_value(s@) {
            Some(n) => if n <= usize::MAX {
                Some(n as usize)
            } else {
                None
            },
            None => None,
        },
{
    if s.len() == 0 {
        return None;
    }
    let mut acc: usize = 0;
    let mut i: usize = 0;
    while i < s.len()
        invariant
            i <= s.len(),
            all_digits(s@.take(i as int)),
            acc == digits_value(s@.take(i as int)),
        decreases s.len() - i,
    {
        let b = s[i];
        if b < DIGIT_ZERO || b > DIGIT_ZERO + 9 {
            return None;
        }
        proof {
            assert(s@.take(i + 1).drop_last() =~= s@.take(i as int));
        }
        let d: usize = (b - DIGIT_ZERO) as usize;
        let next = match acc.checked_mul(10) {
            Some(m) => m.checked_add(d),
            None => None,
        };
        match next {
            Some(v) => {
                acc = v;
            },
            None => {
                proof {
                    if all_digits(s@) {
                        lemma_digits_value_monotonic(s@, i + 1);
                    }
                }
                return None;
            },
        }
        i += 1;
    }
    assert(s@.take(i as int) =~= s@);
    Some(acc)
}

/// Reading back a numeral that `format_decimal` wrote gives the number.
pub proof fn lemma_decimal_round_trip(n: nat)
    ensures
        decimal_value(decimal(n)) == Some(n),
    decreases n,
{
    if n < 10 {
        assert(digits_value(decimal(n)) == n) by {
            reveal_with_fuel(digits_value, 2);
        }
    } else {
        lemma_decimal_round_trip(n / 10);
        let s = decimal(n);
        assert(s.drop_last() =~= decimal(n / 10));
    }
}

/// White space around a value: a blank or a newline.
pub open spec fn is_space(b: u8) -> bool {
    b == SPACE || b == TAB || b == CARRIAGE_RETURN || b == NEWLINE
}

/// `s` without the white space that it starts with.
pub open spec fn trim_start(s: Seq<u8>) -> Seq<u8>
    decreases s.len(),
{
    if s.len() > 0 && is_space(s[0]) {
        trim_start(s.drop_first())
    } else {
        s
    }
}

/// `s` without the white space that it ends with.
pub open spec fn trim_end(s: Seq<u8>) -> Seq<u8>
    decreases s.len(),
{
    if s.len() > 0 && is_space(s.last()) {
        trim_end(s.drop_last())
    } else {
        s
    }
}

/// `s` without the white space at either end.
pub open spec fn trimmed(s: Seq<u8>) -> Seq<u8> {
    trim_end(trim_start(s))
}

fn is_space_byte(b: u8) -> (r: bool)
    ensures
        r == is_space(b),
{
    b == SPACE || b == TAB || b == CARRIAGE_RETURN || b == NEWLINE
}

/// The part of `s` between the white space at its ends.
pub fn trim(s: &[u8]) -> (r: &[u8])
    ensures
        r@ == trimmed(s@),
{
    let mut i: usize = 0;
    assert(s@.skip(0) =~= s@);
    while i < s.len() && is_space_byte(s[i])
        invariant
            i <= s.len(),
            trim_start(s@) == trim_start(s@.skip(i as int)),
        decreases s.len() - i,
    {
        assert(s@.skip(i as int).drop_first() =~= s@.skip(i + 1));
        i += 1;
    }
    let mut j: usize = s.len();
    while j > i && is_space_byte(s[j - 1])
        invariant
            i <= j <= s.len(),
            trimmed(s@) == trim_end(s@.subrange(i as int, j as int)),
        decreases j,
    {
        assert(s@.subrange(i as int, j as int).drop_last() =~= s@.subrange(i as int, j - 1));
        j -= 1;
    }
    vstd::slice::slice_subrange(s, i, j)
}

} // verus!
