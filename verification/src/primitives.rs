//! Chain values: 256-bit numbers, 32-byte digests and 20-byte addresses.
//!
//! Each type holds its content as plain limbs or bytes, laid out as
//! `alloy_primitives` lays them out, so that a value crosses to that crate
//! and back without change. Parsing is done by `alloy_primitives`; the
//! contracts below state what it accepts and what it returns.

use vstd::prelude::*;
use crate::hex::{
    hex_digit_value, is_hex_digit, all_hex_digits, decimal_text, hex_value, hex_digits_of, hex_text,
    lemma_hex_digits_value,
};
use crate::text::{chars_of, string_from, has_prefix};

verus! {

/// Two to the power 64.
pub open spec fn pow2_64() -> nat {
    0x1_0000_0000_0000_0000nat
}

/// Two to the power 256.
pub open spec fn pow2_256() -> nat {
    pow2_64() * pow2_64() * pow2_64() * pow2_64()
}

/// The number that four 64-bit limbs denote, least significant limb first.
pub open spec fn limbs_value(limbs: Seq<u64>) -> nat
    recommends
        limbs.len() == 4,
{
    limbs[0] as nat + limbs[1] as nat * pow2_64() + limbs[2] as nat * pow2_64() * pow2_64()
        + limbs[3] as nat * pow2_64() * pow2_64() * pow2_64()
}

/// An unsigned 256-bit number.
#[derive(Debug, Clone, Copy, PartialEq, Eq)]
pub struct U256 {
    /// The limbs, least significant first.
    pub limbs: [u64; 4],
}

/// A 32-byte digest.
#[derive(Debug, Clone, Copy, PartialEq, Eq)]
pub struct B256 {
    pub bytes: [u8; 32],
}

/// A 20-byte account address.
#[derive(Debug, Clone, Copy, PartialEq, Eq)]
pub struct Address {
    pub bytes: [u8; 20],
}

impl U256 {
    /// The number this is.
    pub open spec fn value(self) -> nat {
        limbs_value(self.limbs@)
    }

    pub fn zero() -> (r: U256)
        ensures
            r.value() == 0,
    {
        U256 { limbs: [0, 0, 0, 0] }
    }

    pub fn from_u64(n: u64) -> (r: U256)
        ensures
            r.value() == n,
    {
        U256 { limbs: [n, 0, 0, 0] }
    }

    pub fn from_u128(n: u128) -> (r: U256)
        ensures
            r.value() == n,
    {
        let lo: u64 = (n % 0x1_0000_0000_0000_0000) as u64;
        let hi: u64 = (n / 0x1_0000_0000_0000_0000) as u64;
        U256 { limbs: [lo, hi, 0, 0] }
    }

    pub fn is_zero(&self) -> (b: bool)
        ensures
            b == (self.value() == 0),
    {
        proof {
            lemma_limbs_value_bounds(self.limbs@);
        }
        self.limbs[0] == 0 && self.limbs[1] == 0 && self.limbs[2] == 0 && self.limbs[3] == 0
    }

    /// The decimal digits of the number.
    pub fn to_decimal_string(&self) -> (r: String)
        ensures
            r@ == decimal_text(self.value()),
    {
        u256_to_string(&self.limbs)
    }

    /// The product with `other`, reduced modulo two to the power 256.
    pub fn wrapping_mul(&self, other: &U256) -> (r: U256)
        ensures
            r.value() == (self.value() * other.value()) % pow2_256(),
    {
        U256 { limbs: u256_wrapping_mul(&self.limbs, &other.limbs) }
    }

    /// The number as 64 bits, where it fits.
    pub fn to_u64(&self) -> (r: Option<u64>)
        ensures
            r is Some == (self.value() <= u64::MAX),
            r matches Some(n) ==> n == self.value(),
    {
        proof {
            lemma_limbs_value_bounds(self.limbs@);
        }
        if self.limbs[1] == 0 && self.limbs[2] == 0 && self.limbs[3] == 0 {
            Some(self.limbs[0])
        } else {
            None
        }
    }
}

/// The value is zero only if every limb is, and it is below two to the 64
/// only if the upper three limbs are zero.
pub proof fn lemma_limbs_value_bounds(limbs: Seq<u64>)
    requires
        limbs.len() == 4,
    ensures
        limbs_value(limbs) == 0 <==> limbs[0] == 0 && limbs[1] == 0 && limbs[2] == 0 && limbs[3]
            == 0,
        limbs_value(limbs) <= u64::MAX <==> limbs[1] == 0 && limbs[2] == 0 && limbs[3] == 0,
        limbs_value(limbs) < pow2_256(),
{
    let b = pow2_64();
    let l0 = limbs[0] as nat;
    let l1 = limbs[1] as nat;
    let l2 = limbs[2] as nat;
    let l3 = limbs[3] as nat;
    assert(l1 * b >= 0 && (l1 >= 1 ==> l1 * b >= b) && l1 * b <= (b - 1) * b) by (nonlinear_arith)
        requires
            b > 0,
            l1 < b,
    ;
    assert(l2 * b * b >= 0 && (l2 >= 1 ==> l2 * b * b >= b) && l2 * b * b <= (b - 1) * b * b)
        by (nonlinear_arith)
        requires
            b > 1,
            l2 < b,
    ;
    assert(l3 * b * b * b >= 0 && (l3 >= 1 ==> l3 * b * b * b >= b) && l3 * b * b * b <= (b - 1)
        * b * b * b) by (nonlinear_arith)
        requires
            b > 1,
            l3 < b,
    ;
    assert((b - 1) + (b - 1) * b + (b - 1) * b * b + (b - 1) * b * b * b < b * b * b * b)
        by (nonlinear_arith)
        requires
            b > 1,
    ;
}

impl B256 {
    pub fn zero() -> (r: B256)
        ensures
            r.bytes@ == Seq::new(32, |i: int| 0u8),
    {
        let r = B256 { bytes: [0u8; 32] };
        assert(r.bytes@ =~= Seq::new(32, |i: int| 0u8));
        r
    }
}

impl Address {
    pub fn zero() -> (r: Address)
        ensures
            r.bytes@ == Seq::new(20, |i: int| 0u8),
    {
        let r = Address { bytes: [0u8; 20] };
        assert(r.bytes@ =~= Seq::new(20, |i: int| 0u8));
        r
    }
}

/// Every character of `s` is a hexadecimal digit or the separator `_`.
pub open spec fn is_radix16_text(s: Seq<char>) -> bool {
    forall|i: int| 0 <= i < s.len() ==> is_hex_digit(#[trigger] s[i]) || s[i] == '_'
}

/// The number that `s` denotes in base 16, most significant digit first,
/// where a separator `_` counts for nothing.
pub open spec fn radix16_value(s: Seq<char>) -> nat
    decreases s.len(),
{
    if s.len() == 0 {
        0
    } else {
        match hex_digit_value(s.last()) {
            Some(d) => radix16_value(s.drop_last()) * 16 + d,
            None => radix16_value(s.drop_last()),
        }
    }
}

/// `s` without any leading run of `0x`.
pub open spec fn trim_0x(s: Seq<char>) -> Seq<char>
    decreases s.len(),
{
    if has_prefix(s, seq!['0', 'x']) {
        trim_0x(s.skip(2))
    } else {
        s
    }
}

/// The 256-bit number that the digits `s` denote in base 16. `None` where
/// a character is neither digit nor `_`, or the number needs more than 256
/// bits.
pub open spec fn radix16_u256(s: Seq<char>) -> Option<nat> {
    if is_radix16_text(s) && radix16_value(s) < pow2_256() {
        Some(radix16_value(s))
    } else {
        None
    }
}

/// The 256-bit number that a wire quantity denotes: any leading `0x` is
/// dropped, the rest is read in base 16.
pub open spec fn quantity_value(s: Seq<char>) -> Option<nat> {
    radix16_u256(trim_0x(s))
}

/// `s` without one leading `0x` or `0X`.
pub open spec fn strip_hex_prefix(s: Seq<char>) -> Seq<char> {
    if s.len() >= 2 && s[0] == '0' && (s[1] == 'x' || s[1] == 'X') {
        s.skip(2)
    } else {
        s
    }
}

/// The byte that two hexadecimal digits denote.
pub open spec fn hex_pair_value(hi: char, lo: char) -> u8 {
    (hex_digit_value(hi).unwrap_or(0) * 16 + hex_digit_value(lo).unwrap_or(0)) as u8
}

/// The `n` bytes that the text `s` denotes: after one optional `0x`,
/// exactly `2 n` hexadecimal digits. `None` for any other text.
pub open spec fn fixed_bytes_value(s: Seq<char>, n: nat) -> Option<Seq<u8>> {
    let body = strip_hex_prefix(s);
    if body.len() == 2 * n && all_hex_digits(body) {
        Some(Seq::new(n, |i: int| hex_pair_value(body[2 * i], body[2 * i + 1])))
    } else {
        None
    }
}

/// `alloy_primitives::U256::from_str_radix` with radix 16. It reads the
/// digits of either case, passes over `_`, and fails on any other
/// character and on a number of more than 256 bits; the limbs it returns
/// denote the number read.
#[verifier::external_body]
fn u256_from_str_radix16(digits: &str) -> (r: Option<[u64; 4]>)
    ensures
        r is Some == radix16_u256(digits@) is Some,
        r matches Some(limbs) ==> radix16_u256(digits@) == Some(limbs_value(limbs@)),
{
    match alloy_primitives::U256::from_str_radix(digits, 16) {
        Ok(v) => Some(v.into_limbs()),
        Err(_) => None,
    }
}

/// `Display` of `alloy_primitives::U256`: the decimal digits of the
/// number, without sign, separator or leading zero.
#[verifier::external_body]
fn u256_to_string(limbs: &[u64; 4]) -> (r: String)
    ensures
        r@ == decimal_text(limbs_value(limbs@)),
{
    alloy_primitives::U256::from_limbs(*limbs).to_string()
}

/// `Mul` of `alloy_primitives::U256`, which wraps around at two to the
/// power 256.
#[verifier::external_body]
fn u256_wrapping_mul(a: &[u64; 4], b: &[u64; 4]) -> (r: [u64; 4])
    ensures
        limbs_value(r@) == (limbs_value(a@) * limbs_value(b@)) % pow2_256(),
{
    (alloy_primitives::U256::from_limbs(*a) * alloy_primitives::U256::from_limbs(*b)).into_limbs()
}

/// `str::parse` to `alloy_primitives::B256`. It accepts one optional `0x`
/// or `0X` and then exactly 64 hexadecimal digits, two to a byte.
#[verifier::external_body]
fn b256_from_str(text: &str) -> (r: Option<[u8; 32]>)
    ensures
        r is Some == fixed_bytes_value(text@, 32) is Some,
        r matches Some(bytes) ==> fixed_bytes_value(text@, 32) == Some(bytes@),
{
    match text.parse::<alloy_primitives::B256>() {
        Ok(h) => Some(h.0),
        Err(_) => None,
    }
}

/// `str::parse` to `alloy_primitives::Address`. It accepts one optional
/// `0x` or `0X` and then exactly 40 hexadecimal digits, two to a byte; it
/// does not look at the case of the digits.
#[verifier::external_body]
fn address_from_str(text: &str) -> (r: Option<[u8; 20]>)
    ensures
        r is Some == fixed_bytes_value(text@, 20) is Some,
        r matches Some(bytes) ==> fixed_bytes_value(text@, 20) == Some(bytes@),
{
    match text.parse::<alloy_primitives::Address>() {
        Ok(a) => Some(a.0.0),
        Err(_) => None,
    }
}

/// A text begins with `0x` exactly if its first two characters are `0`
/// and `x`.
pub proof fn lemma_has_prefix_0x(s: Seq<char>)
    ensures
        has_prefix(s, seq!['0', 'x']) <==> s.len() >= 2 && s[0] == '0' && s[1] == 'x',
{
    let p = seq!['0', 'x'];
    assert(p.len() == 2 && p[0] == '0' && p[1] == 'x');
    if s.len() >= 2 {
        assert(s.take(2)[0] == s[0] && s.take(2)[1] == s[1]);
        if s[0] == '0' && s[1] == 'x' {
            assert(s.take(2) =~= p);
        }
    }
}

/// Digits without separators denote the same number read either way.
pub proof fn lemma_radix16_of_digits(s: Seq<char>)
    requires
        all_hex_digits(s),
    ensures
        is_radix16_text(s),
        radix16_value(s) == hex_value(s),
    decreases s.len(),
{
    if s.len() > 0 {
        assert(is_hex_digit(s.last()));
        lemma_radix16_of_digits(s.drop_last());
    }
}

/// The codec's round trip for chain values: the wire form of a number of
/// at most 256 bits denotes that number.
pub proof fn lemma_quantity_round_trip(n: nat)
    requires
        n < pow2_256(),
    ensures
        quantity_value(hex_text(n)) == Some(n),
{
    let digits = hex_digits_of(n);
    let s = hex_text(n);
    lemma_hex_digits_value(n);
    lemma_has_prefix_0x(s);
    assert(s.skip(2) =~= digits);
    lemma_has_prefix_0x(digits);
    if digits.len() >= 2 && digits[0] == '0' && digits[1] == 'x' {
        assert(is_hex_digit(digits[1]));
    }
    assert(trim_0x(digits) == digits);
    assert(trim_0x(s) == digits);
    lemma_radix16_of_digits(digits);
}

/// Whatever text denotes a chain value, the wire form of that value
/// denotes it again.
pub proof fn lemma_quantity_decode_encode(s: Seq<char>)
    requires
        quantity_value(s) is Some,
    ensures
        quantity_value(hex_text(quantity_value(s)->0)) == quantity_value(s),
{
    lemma_quantity_round_trip(quantity_value(s)->0);
}

/// Where the digits of a wire quantity begin: behind every leading `0x`.
fn quantity_digits_start(v: &Vec<char>) -> (i: usize)
    ensures
        i <= v.len(),
        v@.subrange(i as int, v.len() as int) == trim_0x(v@),
{
    let mut i: usize = 0;
    assert(v@.skip(0) =~= v@);
    while v.len() - i >= 2 && v[i] == '0' && v[i + 1] == 'x'
        invariant
            i <= v.len(),
            trim_0x(v@) == trim_0x(v@.skip(i as int)),
        decreases v.len() - i,
    {
        proof {
            lemma_has_prefix_0x(v@.skip(i as int));
            assert(v@.skip(i as int).skip(2) =~= v@.skip(i + 2));
        }
        i += 2;
    }
    proof {
        lemma_has_prefix_0x(v@.skip(i as int));
        assert(v@.skip(i as int) =~= v@.subrange(i as int, v.len() as int));
    }
    i
}

/// Reads a wire quantity.
pub fn parse_quantity(text: &str) -> (r: Option<U256>)
    ensures
        r is Some == quantity_value(text@) is Some,
        r matches Some(n) ==> quantity_value(text@) == Some(n.value()),
{
    let v = chars_of(text);
    let i = quantity_digits_start(&v);
    let digits = string_from(&v, i);
    match u256_from_str_radix16(digits.as_str()) {
        Some(limbs) => Some(U256 { limbs }),
        None => None,
    }
}

/// Reads a number in base 16 that carries no prefix.
pub fn parse_radix16(digits: &str) -> (r: Option<U256>)
    ensures
        r is Some == radix16_u256(digits@) is Some,
        r matches Some(n) ==> radix16_u256(digits@) == Some(n.value()),
{
    match u256_from_str_radix16(digits) {
        Some(limbs) => Some(U256 { limbs }),
        None => None,
    }
}

/// Reads a 32-byte digest.
pub fn parse_b256(text: &str) -> (r: Option<B256>)
    ensures
        r is Some == fixed_bytes_value(text@, 32) is Some,
        r matches Some(h) ==> fixed_bytes_value(text@, 32) == Some(h.bytes@),
{
    match b256_from_str(text) {
        Some(bytes) => Some(B256 { bytes }),
        None => None,
    }
}

/// Reads a 20-byte address.
pub fn parse_address(text: &str) -> (r: Option<Address>)
    ensures
        r is Some == fixed_bytes_value(text@, 20) is Some,
        r matches Some(a) ==> fixed_bytes_value(text@, 20) == Some(a.bytes@),
{
    match address_from_str(text) {
        Some(bytes) => Some(Address { bytes }),
        None => None,
    }
}

} // verus!
