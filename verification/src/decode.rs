//! The response decoder: from a loosely typed JSON response to an entity.
//!
//! A decode fails only where the response as a whole has the wrong shape.
//! A member that is missing, is no JSON string or does not parse is
//! replaced by zero (a number), by the all-zero digest or address, or by
//! `None` where the entity's field is optional.

use vstd::prelude::*;
use crate::json::{Json, JsonTree, trees};
use crate::primitives::{
    U256, B256, Address, quantity_value, fixed_bytes_value, parse_quantity, parse_b256,
    parse_address, parse_radix16, radix16_u256,
};
use crate::hex::{parse_hex_u64, parse_hex_u64_from};
use crate::entities::{
    Block, BlockView, Transaction, TransactionView, Account, AccountView, optional_value,
    optional_bytes,
};
use crate::text::{chars_of, string_from, without_two_bytes, two_bytes_end, utf8_len, byte_length};

verus! {

/// Which response could not be decoded.
#[derive(Debug, Clone, Copy, PartialEq, Eq, Structural)]
pub enum DecodeError {
    /// The block response is no JSON object.
    InvalidBlock,
    /// The transaction response is no JSON object.
    InvalidTransaction,
    /// The address asked for is no address.
    InvalidAddress,
    /// The balance response is no hexadecimal number.
    InvalidBalance,
    /// The nonce response is no hexadecimal number.
    InvalidNonce,
    /// The code response is shorter than its `0x`.
    InvalidCode,
    /// The block number response is no 64-bit hexadecimal number.
    InvalidBlockNumber,
}

/// The words for a decode error.
pub open spec fn decode_message(error: DecodeError) -> Seq<char> {
    match error {
        DecodeError::InvalidBlock => "Invalid block format"@,
        DecodeError::InvalidTransaction => "Invalid transaction format"@,
        DecodeError::InvalidAddress => "Invalid address format"@,
        DecodeError::InvalidBalance => "Failed to parse balance"@,
        DecodeError::InvalidNonce => "Failed to parse nonce"@,
        DecodeError::InvalidCode => "Failed to parse code"@,
        DecodeError::InvalidBlockNumber => "Failed to parse block number"@,
    }
}

impl DecodeError {
    /// The error in words.
    pub fn message(&self) -> (r: &'static str)
        ensures
            r@ == decode_message(*self),
    {
        match self {
            DecodeError::InvalidBlock => "Invalid block format",
            DecodeError::InvalidTransaction => "Invalid transaction format",
            DecodeError::InvalidAddress => "Invalid address format",
            DecodeError::InvalidBalance => "Failed to parse balance",
            DecodeError::InvalidNonce => "Failed to parse nonce",
            DecodeError::InvalidCode => "Failed to parse code",
            DecodeError::InvalidBlockNumber => "Failed to parse block number",
        }
    }
}

/// `n` zero bytes.
pub open spec fn zero_bytes(n: nat) -> Seq<u8> {
    Seq::new(n, |i: int| 0u8)
}

/// The number of a required member: what its text denotes, and zero where
/// the text is missing or denotes nothing.
pub open spec fn quantity_or_zero(text: Option<Seq<char>>) -> nat {
    match text {
        Some(s) => match quantity_value(s) {
            Some(n) => n,
            None => 0,
        },
        None => 0,
    }
}

/// The `n` bytes of a required member: what its text denotes, and zeros
/// where the text is missing or denotes nothing.
pub open spec fn bytes_or_zero(text: Option<Seq<char>>, n: nat) -> Seq<u8> {
    match text {
        Some(s) => match fixed_bytes_value(s, n) {
            Some(b) => b,
            None => zero_bytes(n),
        },
        None => zero_bytes(n),
    }
}

/// The number of an optional member.
pub open spec fn optional_quantity(text: Option<Seq<char>>) -> Option<nat> {
    match text {
        Some(s) => quantity_value(s),
        None => None,
    }
}

/// The `n` bytes of an optional member.
pub open spec fn optional_fixed_bytes(text: Option<Seq<char>>, n: nat) -> Option<Seq<u8>> {
    match text {
        Some(s) => fixed_bytes_value(s, n),
        None => None,
    }
}

/// The hash that one item of a block's transaction list gives: the item is
/// the hash as a string, or a transaction object with a member `hash`.
pub open spec fn item_hash(item: JsonTree) -> Option<Seq<u8>> {
    match item.text() {
        Some(s) => fixed_bytes_value(s, 32),
        None => optional_fixed_bytes(item.member_text("hash"@), 32),
    }
}

/// The hashes that the items give, in order; an item that gives none is
/// passed over.
pub open spec fn item_hashes(items: Seq<JsonTree>) -> Seq<Seq<u8>>
    decreases items.len(),
{
    if items.len() == 0 {
        Seq::empty()
    } else {
        match item_hash(items.last()) {
            Some(h) => item_hashes(items.drop_last()).push(h),
            None => item_hashes(items.drop_last()),
        }
    }
}

/// The transaction hashes of a block response: those of its member
/// `transactions`, none where that member is missing or no array.
pub open spec fn block_transactions(value: JsonTree) -> Seq<Seq<u8>> {
    match value.member("transactions"@) {
        Some(list) => match list.items() {
            Some(items) => item_hashes(items),
            None => Seq::empty(),
        },
        None => Seq::empty(),
    }
}

/// The block that a block response denotes.
pub open spec fn block_of(value: JsonTree) -> BlockView {
    BlockView {
        number: quantity_or_zero(value.member_text("number"@)),
        hash: bytes_or_zero(value.member_text("hash"@), 32),
        parent_hash: bytes_or_zero(value.member_text("parentHash"@), 32),
        timestamp: quantity_or_zero(value.member_text("timestamp"@)),
        gas_used: quantity_or_zero(value.member_text("gasUsed"@)),
        gas_limit: quantity_or_zero(value.member_text("gasLimit"@)),
        transactions: block_transactions(value),
        miner: bytes_or_zero(value.member_text("miner"@), 20),
        difficulty: quantity_or_zero(value.member_text("difficulty"@)),
        size: quantity_or_zero(value.member_text("size"@)),
    }
}

/// The transaction that a transaction response and a receipt response
/// denote together. A receipt that is no object has no members, so it
/// leaves the gas used and the status unknown.
pub open spec fn transaction_of(tx: JsonTree, receipt: JsonTree) -> TransactionView {
    TransactionView {
        hash: bytes_or_zero(tx.member_text("hash"@), 32),
        block_number: optional_quantity(tx.member_text("blockNumber"@)),
        from: bytes_or_zero(tx.member_text("from"@), 20),
        to: optional_fixed_bytes(tx.member_text("to"@), 20),
        value: quantity_or_zero(tx.member_text("value"@)),
        gas: quantity_or_zero(tx.member_text("gas"@)),
        gas_price: quantity_or_zero(tx.member_text("gasPrice"@)),
        gas_used: optional_quantity(receipt.member_text("gasUsed"@)),
        status: optional_quantity(receipt.member_text("status"@)),
    }
}

fn quantity_field(value: &Json, name: &str) -> (n: U256)
    ensures
        n.value() == quantity_or_zero(value@.member_text(name@)),
{
    match value.get_str(name) {
        Some(s) => match parse_quantity(s) {
            Some(n) => n,
            None => U256::zero(),
        },
        None => U256::zero(),
    }
}

fn optional_quantity_field(value: &Json, name: &str) -> (n: Option<U256>)
    ensures
        optional_value(n) == optional_quantity(value@.member_text(name@)),
{
    match value.get_str(name) {
        Some(s) => parse_quantity(s),
        None => None,
    }
}

fn digest_field(value: &Json, name: &str) -> (h: B256)
    ensures
        h.bytes@ == bytes_or_zero(value@.member_text(name@), 32),
{
    match value.get_str(name) {
        Some(s) => match parse_b256(s) {
            Some(h) => h,
            None => B256::zero(),
        },
        None => B256::zero(),
    }
}

fn address_field(value: &Json, name: &str) -> (a: Address)
    ensures
        a.bytes@ == bytes_or_zero(value@.member_text(name@), 20),
{
    match value.get_str(name) {
        Some(s) => match parse_address(s) {
            Some(a) => a,
            None => Address::zero(),
        },
        None => Address::zero(),
    }
}

fn optional_address_field(value: &Json, name: &str) -> (a: Option<Address>)
    ensures
        optional_bytes(a) == optional_fixed_bytes(value@.member_text(name@), 20),
{
    match value.get_str(name) {
        Some(s) => parse_address(s),
        None => None,
    }
}

fn hash_of_item(item: &Json) -> (h: Option<B256>)
    ensures
        h is Some == item_hash(item@) is Some,
        h matches Some(b) ==> item_hash(item@) == Some(b.bytes@),
{
    match item.as_str() {
        Some(s) => parse_b256(s),
        None => match item.get_str("hash") {
            Some(s) => parse_b256(s),
            None => None,
        },
    }
}

fn transaction_hashes(value: &Json) -> (hashes: Vec<B256>)
    ensures
        hashes@.map_values(|h: B256| h.bytes@) == block_transactions(value@),
{
    let mut hashes: Vec<B256> = Vec::new();
    let ghost bytes_of = |h: B256| h.bytes@;
    assert(hashes@.map_values(bytes_of) =~= Seq::<Seq<u8>>::empty());
    match value.get("transactions") {
        Some(list) => match list.as_array() {
            Some(items) => {
                let mut i: usize = 0;
                let ghost all = trees(items@);
                assert(all.take(0) =~= Seq::<JsonTree>::empty());
                while i < items.len()
                    invariant
                        i <= items.len(),
                        bytes_of == |h: B256| h.bytes@,
                        all == trees(items@),
                        hashes@.map_values(bytes_of) == item_hashes(all.take(i as int)),
                    decreases items.len() - i,
                {
                    let ghost before = hashes@;
                    let ghost next = all.take(i + 1);
                    assert(next.drop_last() =~= all.take(i as int));
                    assert(next.last() == items@[i as int]@);
                    match hash_of_item(&items[i]) {
                        Some(h) => {
                            hashes.push(h);
                            assert(hashes@.map_values(bytes_of) =~= before.map_values(
                                bytes_of,
                            ).push(h.bytes@));
                        },
                        None => {},
                    }
                    i += 1;
                }
                assert(all.take(items.len() as int) =~= all);
            },
            None => {},
        },
        None => {},
    }
    hashes
}

/// Decodes a block response.
pub fn parse_block(value: &Json) -> (r: Result<Block, DecodeError>)
    ensures
        r is Ok == value@.is_object(),
        r matches Ok(b) ==> b@ == block_of(value@),
        r matches Err(e) ==> e == DecodeError::InvalidBlock,
{
    if !value.is_obj() {
        return Err(DecodeError::InvalidBlock);
    }
    Ok(
        Block {
            number: quantity_field(value, "number"),
            hash: digest_field(value, "hash"),
            parent_hash: digest_field(value, "parentHash"),
            timestamp: quantity_field(value, "timestamp"),
            gas_used: quantity_field(value, "gasUsed"),
            gas_limit: quantity_field(value, "gasLimit"),
            transactions: transaction_hashes(value),
            miner: address_field(value, "miner"),
            difficulty: quantity_field(value, "difficulty"),
            size: quantity_field(value, "size"),
        },
    )
}

/// Decodes a transaction response together with its receipt response.
/// The receipt may be missing: any value that is no object stands for
/// that, and leaves `gas_used` and `status` empty.
pub fn parse_transaction(tx_value: &Json, receipt_value: &Json) -> (r: Result<
    Transaction,
    DecodeError,
>)
    ensures
        r is Ok == tx_value@.is_object(),
        r matches Ok(t) ==> t@ == transaction_of(tx_value@, receipt_value@),
        r matches Ok(t) ==> (!receipt_value@.is_object() ==> t.gas_used is None && t.status
            is None),
        r matches Err(e) ==> e == DecodeError::InvalidTransaction,
{
    if !tx_value.is_obj() {
        return Err(DecodeError::InvalidTransaction);
    }
    Ok(
        Transaction {
            hash: digest_field(tx_value, "hash"),
            block_number: optional_quantity_field(tx_value, "blockNumber"),
            from: address_field(tx_value, "from"),
            to: optional_address_field(tx_value, "to"),
            value: quantity_field(tx_value, "value"),
            gas: quantity_field(tx_value, "gas"),
            gas_price: quantity_field(tx_value, "gasPrice"),
            gas_used: optional_quantity_field(receipt_value, "gasUsed"),
            status: optional_quantity_field(receipt_value, "status"),
        },
    )
}

/// The number that a block-number response denotes: behind its first two
/// bytes, which are taken for `0x` unread, a 64-bit number in base 16.
pub open spec fn block_number_of(text: Seq<char>) -> Option<u64> {
    match without_two_bytes(text) {
        Some(digits) => match parse_hex_u64(digits) {
            Ok(n) => Some(n),
            Err(_) => None,
        },
        None => None,
    }
}

/// Decodes the response to a block-number request.
pub fn parse_block_number(text: &str) -> (r: Result<u64, DecodeError>)
    ensures
        r is Ok == block_number_of(text@) is Some,
        r matches Ok(n) ==> block_number_of(text@) == Some(n),
        r matches Err(e) ==> e == DecodeError::InvalidBlockNumber,
{
    let v = chars_of(text);
    match two_bytes_end(&v) {
        Some(k) => match parse_hex_u64_from(&v, k) {
            Ok(n) => Ok(n),
            Err(_) => Err(DecodeError::InvalidBlockNumber),
        },
        None => Err(DecodeError::InvalidBlockNumber),
    }
}

/// The 256-bit number behind the first two bytes of a response.
pub open spec fn prefixed_quantity(text: Seq<char>) -> Option<nat> {
    match without_two_bytes(text) {
        Some(digits) => radix16_u256(digits),
        None => None,
    }
}

/// The size of the code that a code response carries: two hexadecimal
/// digits to a byte, behind the two bytes of `0x`.
pub open spec fn code_size_of(code: Seq<char>) -> Option<nat> {
    if utf8_len(code) >= 2 {
        Some(((utf8_len(code) - 2) / 2) as nat)
    } else {
        None
    }
}

/// What the four texts make of an account, or the first of them, in this
/// order, that denotes nothing.
pub open spec fn account_of(
    address: Seq<char>,
    balance: Seq<char>,
    nonce: Seq<char>,
    code: Seq<char>,
) -> Result<AccountView, DecodeError> {
    if fixed_bytes_value(address, 20) is None {
        Err(DecodeError::InvalidAddress)
    } else if prefixed_quantity(balance) is None {
        Err(DecodeError::InvalidBalance)
    } else if prefixed_quantity(nonce) is None {
        Err(DecodeError::InvalidNonce)
    } else if code_size_of(code) is None {
        Err(DecodeError::InvalidCode)
    } else {
        Ok(
            AccountView {
                address: fixed_bytes_value(address, 20)->0,
                balance: prefixed_quantity(balance)->0,
                nonce: prefixed_quantity(nonce)->0,
                code_size: code_size_of(code)->0,
            },
        )
    }
}

fn parse_prefixed_quantity(text: &str) -> (r: Option<U256>)
    ensures
        r is Some == prefixed_quantity(text@) is Some,
        r matches Some(n) ==> prefixed_quantity(text@) == Some(n.value()),
{
    let v = chars_of(text);
    match two_bytes_end(&v) {
        Some(k) => {
            let digits = string_from(&v, k);
            parse_radix16(digits.as_str())
        },
        None => None,
    }
}

/// Assembles an account from the address asked for and the responses to
/// the balance, nonce and code requests.
pub fn parse_account(address: &str, balance: &str, nonce: &str, code: &str) -> (r: Result<
    Account,
    DecodeError,
>)
    ensures
        r is Ok == account_of(address@, balance@, nonce@, code@) is Ok,
        r matches Ok(a) ==> account_of(address@, balance@, nonce@, code@) == Ok::<
            AccountView,
            DecodeError,
        >(a@),
        r matches Err(e) ==> account_of(address@, balance@, nonce@, code@) == Err::<
            AccountView,
            DecodeError,
        >(e),
{
    let address = match parse_address(address) {
        Some(a) => a,
        None => {
            return Err(DecodeError::InvalidAddress);
        },
    };
    let balance = match parse_prefixed_quantity(balance) {
        Some(n) => n,
        None => {
            return Err(DecodeError::InvalidBalance);
        },
    };
    let nonce = match parse_prefixed_quantity(nonce) {
        Some(n) => n,
        None => {
            return Err(DecodeError::InvalidNonce);
        },
    };
    let code_chars = chars_of(code);
    let code_bytes = byte_length(&code_chars);
    if code_bytes < 2 {
        return Err(DecodeError::InvalidCode);
    }
    let code_size = U256::from_u128((code_bytes - 2) / 2);
    Ok(Account { address, balance, nonce, code_size })
}

} // verus!
