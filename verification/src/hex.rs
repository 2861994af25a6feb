//! The numeric codec: hexadecimal and decimal text of unsigned integers.
//!
//! A number on the wire is a big-endian hexadecimal string. `hex_value`
//! says what such a string denotes, `hex_digits_of` what text a number has,
//! and `lemma_hex_round_trip` that the two agree.

use vstd::prelude::*;
use crate::text::{chars_of, string_of, has_prefix};

verus! {

/// The value of one hexadecimal digit of either case; `None` for any other
/// character.
pub open spec fn hex_digit_value(c: char) -> Option<nat> {
    if '0' <= c && c <= '9' {
        Some((c as int - '0' as int) as nat)
    } else if 'a' <= c && c <= 'f' {
        Some((c as int - 'a' as int + 10) as nat)
    } else if 'A' <= c && c <= 'F' {
        Some((c as int - 'A' as int + 10) as nat)
    } else {
        None
    }
}

pub open spec fn is_hex_digit(c: char) -> bool {
    hex_digit_value(c) is Some
}

/// Every character of `s` is a hexadecimal digit.
pub open spec fn all_hex_digits(s: Seq<char>) -> bool {
    forall|i: int| 0 <= i < s.len() ==> is_hex_digit(#[trigger] s[i])
}

/// The number that the digits `s` denote, most significant digit first.
/// A character that is no digit counts as zero.
pub open spec fn hex_value(s: Seq<char>) -> nat
    decreases s.len(),
{
    if s.len() == 0 {
        0
    } else {
        hex_value(s.drop_last()) * 16 + match hex_digit_value(s.last()) {
            Some(d) => d,
            None => 0,
        }
    }
}

/// The lower-case digit for `d < 16`.
pub open spec fn hex_digit_char(d: nat) -> char {
    if d < 10 {
        (d + '0' as nat) as char
    } else {
        (d - 10 + 'a' as nat) as char
    }
}

/// The lower-case hexadecimal digits of `n`, without leading zeros; `"0"`
/// for zero.
pub open spec fn hex_digits_of(n: nat) -> Seq<char>
    decreases n,
{
    if n < 16 {
        seq![hex_digit_char(n)]
    } else {
        hex_digits_of(n / 16).push(hex_digit_char(n % 16))
    }
}

/// The wire form of `n`: `"0x"` and its lower-case digits.
pub open spec fn hex_text(n: nat) -> Seq<char> {
    seq!['0', 'x'] + hex_digits_of(n)
}

/// The decimal digit for `d < 10`.
pub open spec fn decimal_digit_char(d: nat) -> char {
    (d + '0' as nat) as char
}

/// The decimal digits of `n`, without leading zeros; `"0"` for zero.
pub open spec fn decimal_text(n: nat) -> Seq<char>
    decreases n,
{
    if n < 10 {
        seq![decimal_digit_char(n)]
    } else {
        decimal_text(n / 10).push(decimal_digit_char(n % 10))
    }
}

/// The value of one decimal digit; `None` for any other character.
pub open spec fn decimal_digit_value(c: char) -> Option<nat> {
    if '0' <= c && c <= '9' {
        Some((c as int - '0' as int) as nat)
    } else {
        None
    }
}

/// Every character of `s` is a decimal digit.
pub open spec fn all_decimal_digits(s: Seq<char>) -> bool {
    forall|i: int| 0 <= i < s.len() ==> decimal_digit_value(#[trigger] s[i]) is Some
}

/// The number that the decimal digits `s` denote, most significant digit
/// first. A character that is no digit counts as zero.
pub open spec fn decimal_value(s: Seq<char>) -> nat
    decreases s.len(),
{
    if s.len() == 0 {
        0
    } else {
        decimal_value(s.drop_last()) * 10 + match decimal_digit_value(s.last()) {
            Some(d) => d,
            None => 0,
        }
    }
}

/// The 64-bit number that a decimal text denotes: an optional `+`, then
/// at least one digit and nothing else; `None` for any other text and
/// for a number that does not fit.
pub open spec fn parse_decimal_u64(s: Seq<char>) -> Option<u64> {
    let digits = unsigned_digits(s);
    if digits.len() > 0 && all_decimal_digits(digits) && decimal_value(digits) <= u64::MAX {
        Some(decimal_value(digits) as u64)
    } else {
        None
    }
}

/// The decimal digits of a number denote that number, and are digits.
pub proof fn lemma_decimal_text_value(n: nat)
    ensures
        all_decimal_digits(decimal_text(n)),
        decimal_value(decimal_text(n)) == n,
        decimal_text(n).len() >= 1,
    decreases n,
{
    if n < 10 {
        let s = seq![decimal_digit_char(n)];
        assert(s.drop_last() =~= Seq::<char>::empty());
        assert(decimal_value(s.drop_last()) == 0);
        assert(decimal_digit_value(decimal_digit_char(n)) == Some(n));
    } else {
        lemma_decimal_text_value(n / 10);
        let s = decimal_text(n / 10);
        let c = decimal_digit_char(n % 10);
        assert(s.push(c).drop_last() == s);
        assert(decimal_digit_value(c) == Some(n % 10));
    }
}

/// Why a text is not a 64-bit hexadecimal number.
#[derive(Debug, Clone, Copy, PartialEq, Eq, Structural)]
pub enum HexError {
    /// There is no text at all.
    Empty,
    /// A character that is no hexadecimal digit.
    InvalidDigit,
    /// The number does not fit in 64 bits.
    Overflow,
}

/// How many leading characters of `s` are hexadecimal digits.
pub open spec fn leading_hex_digits(s: Seq<char>) -> nat
    decreases s.len(),
{
    if s.len() == 0 || !is_hex_digit(s[0]) {
        0
    } else {
        1 + leading_hex_digits(s.drop_first())
    }
}

/// `s` without one leading `+`, which an unsigned number may carry.
pub open spec fn unsigned_digits(s: Seq<char>) -> Seq<char> {
    if s.len() > 0 && s[0] == '+' {
        s.drop_first()
    } else {
        s
    }
}

/// What the text `s` denotes as a 64-bit number in base 16: an optional
/// `+`, then at least one digit. Reading from the left, the first thing
/// that is wrong decides the error.
pub open spec fn parse_hex_u64(s: Seq<char>) -> Result<u64, HexError> {
    let digits = unsigned_digits(s);
    let k = leading_hex_digits(digits) as int;
    if s.len() == 0 {
        Err(HexError::Empty)
    } else if digits.len() == 0 {
        Err(HexError::InvalidDigit)
    } else if hex_value(digits.take(k)) > u64::MAX {
        Err(HexError::Overflow)
    } else if k < digits.len() {
        Err(HexError::InvalidDigit)
    } else {
        Ok(hex_value(digits) as u64)
    }
}

/// `s` without one leading `0x`.
pub open spec fn strip_0x(s: Seq<char>) -> Seq<char> {
    if has_prefix(s, seq!['0', 'x']) {
        s.skip(2)
    } else {
        s
    }
}

/// What `hex_to_decimal` returns on the text `s`.
pub open spec fn spec_hex_to_decimal(s: Seq<char>) -> Result<u64, HexError> {
    parse_hex_u64(strip_0x(s))
}

proof fn lemma_hex_value_push(s: Seq<char>, c: char)
    ensures
        hex_value(s.push(c)) == hex_value(s) * 16 + match hex_digit_value(c) {
            Some(d) => d,
            None => 0,
        },
{
    assert(s.push(c).drop_last() == s);
    assert(s.push(c).last() == c);
}

/// A longer prefix never denotes a smaller number.
pub proof fn lemma_hex_value_prefix_monotone(s: Seq<char>, i: int, j: int)
    requires
        0 <= i <= j <= s.len(),
    ensures
        hex_value(s.take(i)) <= hex_value(s.take(j)),
    decreases j - i,
{
    if i < j {
        lemma_hex_value_prefix_monotone(s, i, j - 1);
        assert(s.take(j).drop_last() == s.take(j - 1));
    }
}

proof fn lemma_leading_hex_digits(s: Seq<char>)
    ensures
        leading_hex_digits(s) <= s.len(),
        forall|i: int| 0 <= i < leading_hex_digits(s) ==> is_hex_digit(#[trigger] s[i]),
        leading_hex_digits(s) < s.len() ==> !is_hex_digit(s[leading_hex_digits(s) as int]),
    decreases s.len(),
{
    if s.len() == 0 || !is_hex_digit(s[0]) {
    } else {
        let t = s.drop_first();
        lemma_leading_hex_digits(t);
        assert forall|i: int| 0 <= i < leading_hex_digits(s) implies is_hex_digit(
            #[trigger] s[i],
        ) by {
            if i > 0 {
                assert(s[i] == t[i - 1]);
            }
        }
        if leading_hex_digits(s) < s.len() {
            assert(s[leading_hex_digits(s) as int] == t[leading_hex_digits(t) as int]);
        }
    }
}

/// `k` is the number of leading digits once the first `k` characters are
/// digits and the next one, if any, is none.
proof fn lemma_leading_hex_digits_is(s: Seq<char>, k: int)
    requires
        0 <= k <= s.len(),
        forall|i: int| 0 <= i < k ==> is_hex_digit(#[trigger] s[i]),
        k < s.len() ==> !is_hex_digit(s[k]),
    ensures
        leading_hex_digits(s) == k,
    decreases s.len(),
{
    if k == 0 {
    } else {
        let t = s.drop_first();
        assert(is_hex_digit(s[0]));
        assert forall|i: int| 0 <= i < k - 1 implies is_hex_digit(#[trigger] t[i]) by {
            assert(t[i] == s[i + 1]);
        }
        if k - 1 < t.len() {
            assert(t[k - 1] == s[k]);
        }
        lemma_leading_hex_digits_is(t, k - 1);
    }
}

/// The digits of a number denote that number.
pub proof fn lemma_hex_digits_value(n: nat)
    ensures
        all_hex_digits(hex_digits_of(n)),
        hex_value(hex_digits_of(n)) == n,
        hex_digits_of(n).len() >= 1,
        forall|i: int| 0 <= i < hex_digits_of(n).len() ==> #[trigger] hex_digits_of(n)[i] != '+',
        hex_digits_of(n)[0] != 'x',
    decreases n,
{
    if n < 16 {
        let s = seq![hex_digit_char(n)];
        assert(s.drop_last() =~= Seq::<char>::empty());
        assert(hex_value(s.drop_last()) == 0);
        assert(hex_digit_value(hex_digit_char(n)) == Some(n));
    } else {
        lemma_hex_digits_value(n / 16);
        lemma_hex_value_push(hex_digits_of(n / 16), hex_digit_char(n % 16));
        assert(hex_digit_value(hex_digit_char(n % 16)) == Some(n % 16));
    }
}

/// Decoding what `to_hex` encodes gives the number back.
pub proof fn lemma_hex_decode_encode(n: u64)
    ensures
        spec_hex_to_decimal(hex_text(n as nat)) == Ok::<u64, HexError>(n),
{
    let digits = hex_digits_of(n as nat);
    let s = hex_text(n as nat);
    lemma_hex_digits_value(n as nat);
    assert(s.take(2) =~= seq!['0', 'x']);
    assert(s.skip(2) =~= digits);
    assert(strip_0x(s) == digits);
    assert(unsigned_digits(digits) == digits);
    lemma_leading_hex_digits_is(digits, digits.len() as int);
    assert(digits.take(digits.len() as int) =~= digits);
}

/// The codec's round trip: whatever text decodes to a number `v`, the text
/// that `v` is encoded as decodes to `v` again.
pub proof fn lemma_hex_round_trip(s: Seq<char>)
    requires
        spec_hex_to_decimal(s) is Ok,
    ensures
        spec_hex_to_decimal(hex_text(spec_hex_to_decimal(s)->Ok_0 as nat))
            == spec_hex_to_decimal(s),
{
    lemma_hex_decode_encode(spec_hex_to_decimal(s)->Ok_0);
}

/// The value of the digit `c`, if it is one.
pub fn hex_digit(c: char) -> (r: Option<u8>)
    ensures
        r is Some == is_hex_digit(c),
        r matches Some(d) ==> hex_digit_value(c) == Some(d as nat) && d < 16,
{
    if c >= '0' && c <= '9' {
        Some((c as u32 - '0' as u32) as u8)
    } else if c >= 'a' && c <= 'f' {
        Some((c as u32 - 'a' as u32 + 10) as u8)
    } else if c >= 'A' && c <= 'F' {
        Some((c as u32 - 'A' as u32 + 10) as u8)
    } else {
        None
    }
}

/// Reads `v[from..]` as a 64-bit number in base 16.
pub fn parse_hex_u64_from(v: &Vec<char>, from: usize) -> (r: Result<u64, HexError>)
    requires
        from <= v.len(),
    ensures
        r == parse_hex_u64(v@.subrange(from as int, v.len() as int)),
{
    let ghost s = v@.subrange(from as int, v.len() as int);
    if from == v.len() {
        return Err(HexError::Empty);
    }
    let start: usize = if v[from] == '+' {
        from + 1
    } else {
        from
    };
    let ghost digits = unsigned_digits(s);
    assert(digits =~= v@.subrange(start as int, v.len() as int));
    if start == v.len() {
        return Err(HexError::InvalidDigit);
    }
    let mut acc: u64 = 0;
    let mut i: usize = start;
    while i < v.len()
        invariant
            from <= start <= i <= v.len(),
            start < v.len(),
            s == v@.subrange(from as int, v.len() as int),
            digits == unsigned_digits(s),
            digits == v@.subrange(start as int, v.len() as int),
            forall|j: int| 0 <= j < i - start ==> is_hex_digit(#[trigger] digits[j]),
            acc == hex_value(digits.take(i - start)),
        decreases v.len() - i,
    {
        let ghost k = i - start;
        match hex_digit(v[i]) {
            None => {
                proof {
                    assert(digits[k] == v@[i as int]);
                    lemma_leading_hex_digits_is(digits, k);
                }
                return Err(HexError::InvalidDigit);
            },
            Some(d) => {
                proof {
                    assert(digits[k] == v@[i as int]);
                    assert(digits.take(k + 1) =~= digits.take(k).push(digits[k]));
                    lemma_hex_value_push(digits.take(k), digits[k]);
                }
                if acc > u64::MAX / 16 {
                    proof {
                        lemma_leading_hex_digits(digits);
                        let n = leading_hex_digits(digits) as int;
                        if n <= k {
                            assert(is_hex_digit(digits[n]));
                        }
                        lemma_hex_value_prefix_monotone(digits, k + 1, n);
                    }
                    return Err(HexError::Overflow);
                }
                acc = acc * 16 + d as u64;
            },
        }
        i += 1;
    }
    proof {
        lemma_leading_hex_digits_is(digits, digits.len() as int);
        assert(digits.take(digits.len() as int) =~= digits);
    }
    Ok(acc)
}

/// Converts a hexadecimal string, with or without a leading `0x`, to a
/// 64-bit number.
pub fn hex_to_decimal(hex_str: &str) -> (r: Result<u64, HexError>)
    ensures
        r == spec_hex_to_decimal(hex_str@),
{
    let v = chars_of(hex_str);
    let from: usize = if v.len() >= 2 && v[0] == '0' && v[1] == 'x' {
        2
    } else {
        0
    };
    proof {
        if v.len() >= 2 {
            assert(v@.take(2) =~= seq![v@[0], v@[1]]);
            assert(seq!['0', 'x'][0] == '0' && seq!['0', 'x'][1] == 'x');
        }
        assert(v@.subrange(from as int, v.len() as int) =~= strip_0x(v@));
    }
    parse_hex_u64_from(&v, from)
}

/// `str::parse` to `u64`. It takes an optional `+` and then decimal
/// digits only, at least one, whose number fits in 64 bits.
#[verifier::external_body]
pub(crate) fn str_parse_u64(text: &str) -> (r: Option<u64>)
    ensures
        r == parse_decimal_u64(text@),
{
    text.parse::<u64>().ok()
}

/// The lower-case digit of `d`.
fn hex_char(d: u8) -> (c: char)
    requires
        d < 16,
    ensures
        c == hex_digit_char(d as nat),
{
    if d < 10 {
        (d + 48) as char
    } else {
        (d + 87) as char
    }
}

/// Appends to `out` the digits that `n` has in `base` 10 or 16.
fn push_digits(out: &mut Vec<char>, n: u64, base: u64)
    requires
        base == 10 || base == 16,
    ensures
        base == 16 ==> final(out)@ == old(out)@ + hex_digits_of(n as nat),
        base == 10 ==> final(out)@ == old(out)@ + decimal_text(n as nat),
    decreases n,
{
    if n >= base {
        push_digits(out, n / base, base);
    }
    let d: u8 = (n % base) as u8;
    let c: char = if base == 16 {
        hex_char(d)
    } else {
        (d + 48) as char
    };
    out.push(c);
    proof {
        if n < base {
            assert(old(out)@.push(c) =~= old(out)@ + seq![c]);
        } else if base == 16 {
            assert((old(out)@ + hex_digits_of(n as nat / 16)).push(c) =~= old(out)@
                + hex_digits_of(n as nat));
        } else {
            assert((old(out)@ + decimal_text(n as nat / 10)).push(c) =~= old(out)@
                + decimal_text(n as nat));
        }
    }
}

/// The wire form of a 64-bit number: `0x` and its lower-case digits.
pub fn to_hex(n: u64) -> (r: String)
    ensures
        r@ == hex_text(n as nat),
{
    let mut out: Vec<char> = Vec::new();
    out.push('0');
    out.push('x');
    assert(out@ =~= seq!['0', 'x']);
    push_digits(&mut out, n, 16);
    string_of(&out)
}

/// The decimal digits of `n`.
pub fn decimal_chars(n: u64) -> (r: Vec<char>)
    ensures
        r@ == decimal_text(n as nat),
{
    let mut out: Vec<char> = Vec::new();
    push_digits(&mut out, n, 10);
    assert(Seq::<char>::empty() + decimal_text(n as nat) =~= decimal_text(n as nat));
    out
}

} // verus!
