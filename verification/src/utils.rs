//! Text for display: abbreviated hashes and addresses, grouped numbers,
//! status lines, and times.

use vstd::prelude::*;
use crate::hex::{decimal_text, decimal_chars, hex_digit_char};
use crate::primitives::{U256, B256, Address};
use crate::text::{
    chars_of, string_of, push_str, utf8_len, utf8_width, char_width, byte_length,
};
pub use crate::hex::hex_to_decimal;
pub use crate::gas::calculate_gas_utilization;

verus! {

/// How many characters of `s` make up its first `n` bytes, where a
/// character ends there.
pub open spec fn boundary_index(s: Seq<char>, n: nat) -> Option<nat>
    decreases s.len(),
{
    if n == 0 {
        Some(0)
    } else if s.len() == 0 || utf8_width(s[0]) > n {
        None
    } else {
        match boundary_index(s.drop_first(), (n - utf8_width(s[0])) as nat) {
            Some(k) => Some(k + 1),
            None => None,
        }
    }
}

/// Whether the text can be cut to its first `head` and last `tail` bytes:
/// it is shorter than both together and is left alone, or a character
/// begins at either cut.
pub open spec fn can_abbreviate(s: Seq<char>, head: nat, tail: nat) -> bool {
    utf8_len(s) >= head + tail ==> boundary_index(s, head) is Some && boundary_index(
        s,
        (utf8_len(s) - tail) as nat,
    ) is Some
}

/// The text cut to its first `head` and last `tail` bytes with `...`
/// between them; the text itself where it is shorter than both together.
pub open spec fn abbreviated(s: Seq<char>, head: nat, tail: nat) -> Seq<char> {
    if utf8_len(s) >= head + tail {
        s.take(boundary_index(s, head)->0 as int) + "..."@ + s.skip(
            boundary_index(s, (utf8_len(s) - tail) as nat)->0 as int,
        )
    } else {
        s
    }
}

/// How many characters of `v` make up its first `n` bytes.
fn find_boundary(v: &Vec<char>, n: u128) -> (r: Option<usize>)
    ensures
        r is Some == boundary_index(v@, n as nat) is Some,
        r matches Some(k) ==> boundary_index(v@, n as nat) == Some(k as nat) && k <= v.len(),
{
    let mut i: usize = 0;
    let mut left: u128 = n;
    assert(v@.skip(0) =~= v@);
    while left > 0
        invariant
            i <= v.len(),
            left <= n,
            boundary_index(v@, n as nat) == match boundary_index(v@.skip(i as int), left as nat) {
                Some(k) => Some(k + i as nat),
                None => None,
            },
        decreases v.len() - i, left,
    {
        if i == v.len() {
            return None;
        }
        let w = char_width(v[i]) as u128;
        let ghost rest = v@.skip(i as int);
        assert(rest[0] == v@[i as int]);
        assert(rest.drop_first() =~= v@.skip(i + 1));
        if w > left {
            return None;
        }
        left = left - w;
        i += 1;
    }
    Some(i)
}

/// Cuts a text to its first `head` and last `tail` bytes, where it can be
/// cut there.
pub fn abbreviate(text: &str, head: u8, tail: u8) -> (r: Option<String>)
    ensures
        r is Some == can_abbreviate(text@, head as nat, tail as nat),
        r matches Some(s) ==> s@ == abbreviated(text@, head as nat, tail as nat),
{
    let v = chars_of(text);
    let len = byte_length(&v);
    if len >= head as u128 + tail as u128 {
        let first = find_boundary(&v, head as u128);
        let last = find_boundary(&v, len - tail as u128);
        match (first, last) {
            (Some(a), Some(b)) => {
                let mut out: Vec<char> = Vec::new();
                let mut i: usize = 0;
                while i < a
                    invariant
                        i <= a <= v.len(),
                        out@ == v@.take(i as int),
                    decreases a - i,
                {
                    out.push(v[i]);
                    i += 1;
                }
                push_str(&mut out, "...");
                let mut j: usize = b;
                while j < v.len()
                    invariant
                        b <= j <= v.len(),
                        out@ == v@.take(a as int) + "..."@ + v@.subrange(b as int, j as int),
                    decreases v.len() - j,
                {
                    out.push(v[j]);
                    j += 1;
                }
                assert(v@.subrange(b as int, v.len() as int) =~= v@.skip(b as int));
                Some(string_of(&out))
            },
            _ => None,
        }
    } else {
        Some(text.to_owned())
    }
}

/// Shows the first 10 and the last 4 bytes of a hash of 14 bytes or
/// more. A text cut inside a character has no such form.
pub fn format_hash(hash: &str) -> (r: String)
    requires
        can_abbreviate(hash@, 10, 4),
    ensures
        r@ == abbreviated(hash@, 10, 4),
{
    match abbreviate(hash, 10, 4) {
        Some(short) => short,
        None => hash.to_owned(),
    }
}

/// Shows the first 6 and the last 4 bytes of an address of 10 bytes or
/// more. A text cut inside a character has no such form.
pub fn format_address(address: &str) -> (r: String)
    requires
        can_abbreviate(address@, 6, 4),
    ensures
        r@ == abbreviated(address@, 6, 4),
{
    match abbreviate(address, 6, 4) {
        Some(short) => short,
        None => address.to_owned(),
    }
}

/// The digits with a comma before every group of three, counted from the
/// right.
pub open spec fn grouped(digits: Seq<char>) -> Seq<char>
    decreases digits.len(),
{
    if digits.len() <= 3 {
        digits
    } else {
        grouped(digits.take(digits.len() - 3)).push(',') + digits.skip(digits.len() - 3)
    }
}

/// Appends `grouped(digits[..end])` to `out`.
fn push_grouped(out: &mut Vec<char>, digits: &Vec<char>, end: usize)
    requires
        end <= digits.len(),
    ensures
        final(out)@ == old(out)@ + grouped(digits@.take(end as int)),
    decreases end,
{
    let ghost part = digits@.take(end as int);
    let from: usize = if end <= 3 {
        0
    } else {
        push_grouped(out, digits, end - 3);
        out.push(',');
        assert(part.take(part.len() - 3) =~= digits@.take(end - 3));
        end - 3
    };
    let ghost before = out@;
    let mut i: usize = from;
    while i < end
        invariant
            from <= i <= end <= digits.len(),
            out@ == before + digits@.subrange(from as int, i as int),
        decreases end - i,
    {
        out.push(digits[i]);
        i += 1;
    }
    proof {
        if end <= 3 {
            assert(digits@.subrange(0, end as int) =~= part);
        } else {
            assert(digits@.subrange(from as int, end as int) =~= part.skip(part.len() - 3));
            assert(out@ =~= old(out)@ + grouped(part));
        }
    }
}

/// Formats a number with a comma between its groups of three digits.
pub fn format_number(num: u64) -> (r: String)
    ensures
        r@ == grouped(decimal_text(num as nat)),
{
    let digits = decimal_chars(num);
    let mut out: Vec<char> = Vec::new();
    push_grouped(&mut out, &digits, digits.len());
    assert(digits@.take(digits.len() as int) =~= digits@);
    assert(Seq::<char>::empty() + grouped(digits@) =~= grouped(digits@));
    string_of(&out)
}

/// The status line of a transaction: failed for a status of zero,
/// success for any other, pending for none.
pub open spec fn tx_status_text(status: Option<nat>) -> Seq<char> {
    match status {
        Some(s) => if s == 0 {
            "âŒ Failed"@
        } else {
            "âœ… Success"@
        },
        None => "â³ Pending"@,
    }
}

/// Formats the status of a transaction.
pub fn format_tx_status(status: &Option<U256>) -> (r: String)
    ensures
        r@ == tx_status_text(crate::entities::optional_value(*status)),
{
    match status {
        Some(s) => if s.is_zero() {
            "âŒ Failed".to_owned()
        } else {
            "âœ… Success".to_owned()
        },
        None => "â³ Pending".to_owned(),
    }
}

/// Tells a contract from an externally owned account by the size of its
/// code.
pub fn account_type(code_size: &U256) -> (r: &'static str)
    ensures
        r@ == if code_size.value() == 0 {
            "ðŸ‘¤ Externally Owned Account"@
        } else {
            "ðŸ’¼ Smart Contract"@
        },
{
    if code_size.is_zero() {
        "ðŸ‘¤ Externally Owned Account"
    } else {
        "ðŸ’¼ Smart Contract"
    }
}

/// Every character of the text is ASCII.
pub open spec fn all_ascii(s: Seq<char>) -> bool {
    forall|i: int| 0 <= i < s.len() ==> (#[trigger] s[i] as u32) < 0x80
}

/// An ASCII text has a byte to a character.
pub proof fn lemma_ascii_len(s: Seq<char>)
    requires
        all_ascii(s),
    ensures
        utf8_len(s) == s.len(),
    decreases s.len(),
{
    if s.len() > 0 {
        assert(s.last() == s[s.len() - 1]);
        lemma_ascii_len(s.drop_last());
    }
}

/// An ASCII text can be cut anywhere.
pub proof fn lemma_ascii_boundary(s: Seq<char>, n: nat)
    requires
        all_ascii(s),
        n <= s.len(),
    ensures
        boundary_index(s, n) == Some(n),
    decreases s.len(),
{
    if n > 0 {
        assert((s[0] as u32) < 0x80);
        lemma_ascii_boundary(s.drop_first(), (n - 1) as nat);
    }
}

/// `0x` and two lower-case hexadecimal digits for each byte.
pub open spec fn prefixed_hex(bytes: Seq<u8>) -> Seq<char> {
    seq!['0', 'x'] + Seq::new(
        2 * bytes.len(),
        |i: int|
            if i % 2 == 0 {
                hex_digit_char((bytes[i / 2] / 16) as nat)
            } else {
                hex_digit_char((bytes[i / 2] % 16) as nat)
            },
    )
}

/// The hexadecimal form of bytes is ASCII, with two digits to a byte
/// behind its `0x`.
pub proof fn lemma_prefixed_hex_ascii(bytes: Seq<u8>)
    ensures
        all_ascii(prefixed_hex(bytes)),
        prefixed_hex(bytes).len() == 2 + 2 * bytes.len(),
{
    let s = prefixed_hex(bytes);
    assert forall|i: int| 0 <= i < s.len() implies (#[trigger] s[i] as u32) < 0x80 by {
        if i >= 2 {
            let j = i - 2;
            let d: nat = if j % 2 == 0 {
                (bytes[j / 2] / 16) as nat
            } else {
                (bytes[j / 2] % 16) as nat
            };
            assert(s[i] == hex_digit_char(d));
            assert(d < 16);
        }
    }
}

/// The `Debug` form of `alloy_primitives::B256`: `0x` and the 64
/// lower-case hexadecimal digits of the bytes.
#[verifier::external_body]
fn b256_debug(bytes: &[u8; 32]) -> (r: String)
    ensures
        r@ == prefixed_hex(bytes@),
{
    format!("{:?}", alloy_primitives::B256::new(*bytes))
}

/// The `Debug` form of `alloy_primitives::Address`: `0x` and the 40
/// lower-case hexadecimal digits of the bytes, without a checksum.
#[verifier::external_body]
fn address_debug(bytes: &[u8; 20]) -> (r: String)
    ensures
        r@ == prefixed_hex(bytes@),
{
    format!("{:?}", alloy_primitives::Address::new(*bytes))
}

/// Formats a digest for display.
pub fn format_b256_hash(hash: &B256) -> (r: String)
    ensures
        r@ == abbreviated(prefixed_hex(hash.bytes@), 10, 4),
{
    let text = b256_debug(&hash.bytes);
    proof {
        lemma_prefixed_hex_ascii(hash.bytes@);
        lemma_ascii_len(text@);
        lemma_ascii_boundary(text@, 10);
        lemma_ascii_boundary(text@, 62);
    }
    format_hash(text.as_str())
}

/// Formats an address for display.
pub fn format_eth_address(address: &Address) -> (r: String)
    ensures
        r@ == abbreviated(prefixed_hex(address.bytes@), 6, 4),
{
    let text = address_debug(&address.bytes);
    proof {
        lemma_prefixed_hex_ascii(address.bytes@);
        lemma_ascii_len(text@);
        lemma_ascii_boundary(text@, 6);
        lemma_ascii_boundary(text@, 38);
    }
    format_address(text.as_str())
}

/// The text `%Y-%m-%d %H:%M:%S UTC` of the moment `secs` seconds after
/// the epoch, as `chrono` renders it; `None` for a moment outside the
/// range of `chrono::DateTime`.
pub uninterp spec fn utc_time_text(secs: i64) -> Option<Seq<char>>;

/// `chrono::DateTime::from_timestamp` with no nanoseconds, then
/// `DateTime::format` with `%Y-%m-%d %H:%M:%S UTC`.
#[verifier::external_body]
fn chrono_time_text(secs: i64) -> (r: Option<String>)
    ensures
        r is Some == utc_time_text(secs) is Some,
        r matches Some(text) ==> utc_time_text(secs) == Some(text@),
{
    chrono::DateTime::from_timestamp(secs, 0).map(
        |moment| moment.format("%Y-%m-%d %H:%M:%S UTC").to_string(),
    )
}

/// `chrono::Utc::now`, rendered with `%Y-%m-%d %H:%M:%S UTC`. It reads
/// the clock, so nothing is promised of the text.
#[verifier::external_body]
fn chrono_now_text() -> String {
    chrono::Utc::now().format("%Y-%m-%d %H:%M:%S UTC").to_string()
}

/// `chrono::Utc::now` as seconds since the epoch. It reads the clock.
#[verifier::external_body]
fn chrono_now_secs() -> i64 {
    chrono::Utc::now().timestamp()
}

/// Formats a Unix timestamp as `YYYY-MM-DD HH:MM:SS UTC`. A timestamp
/// that `chrono` cannot represent is shown as the present moment.
pub fn format_timestamp(timestamp: u64) -> (r: String)
    ensures
        utc_time_text(timestamp as i64) matches Some(text) ==> r@ == text,
{
    match chrono_time_text(timestamp as i64) {
        Some(text) => text,
        None => chrono_now_text(),
    }
}

/// Formats a 256-bit timestamp that fits in 64 bits.
pub fn format_timestamp_u256(timestamp: &U256) -> (r: String)
    requires
        timestamp.value() <= u64::MAX,
    ensures
        utc_time_text(timestamp.value() as u64 as i64) matches Some(text) ==> r@ == text,
{
    match timestamp.to_u64() {
        Some(secs) => format_timestamp(secs),
        None => String::new(),
    }
}

/// How long before `now` the moment `timestamp` was, in the largest unit
/// that is not too large; `just now` for a moment not in the past.
pub open spec fn time_ago_text(now: u64, timestamp: u64) -> Seq<char> {
    let diff = (now - timestamp) as nat;
    if now <= timestamp {
        "just now"@
    } else if diff < 60 {
        decimal_text(diff) + " sec ago"@
    } else if diff < 3600 {
        decimal_text(diff / 60) + " min ago"@
    } else if diff < 86400 {
        decimal_text(diff / 3600) + " hr ago"@
    } else {
        decimal_text(diff / 86400) + " days ago"@
    }
}

/// The age of the moment `timestamp` at the moment `now`.
pub fn time_ago_at(now: u64, timestamp: u64) -> (r: String)
    ensures
        r@ == time_ago_text(now, timestamp),
{
    if now <= timestamp {
        return "just now".to_owned();
    }
    let diff = now - timestamp;
    let (count, unit) = if diff < 60 {
        (diff, " sec ago")
    } else if diff < 3600 {
        (diff / 60, " min ago")
    } else if diff < 86400 {
        (diff / 3600, " hr ago")
    } else {
        (diff / 86400, " days ago")
    };
    let mut out = decimal_chars(count);
    push_str(&mut out, unit);
    string_of(&out)
}

/// The age of the moment `timestamp` at the present moment, which is
/// read from the clock.
pub fn time_ago(timestamp: u64) -> (r: String)
    ensures
        exists|now: u64| r@ == time_ago_text(now, timestamp),
{
    let now = chrono_now_secs() as u64;
    time_ago_at(now, timestamp)
}

} // verus!
