use eth_data_extractor::decode::{
    parse_account, parse_block, parse_block_number, parse_transaction, DecodeError,
};
use eth_data_extractor::json::Json;
use eth_data_extractor::primitives::{
    parse_address, parse_b256, parse_quantity, parse_radix16, Address, B256, U256,
};

fn text(s: &str) -> Json {
    Json::Text(s.to_string())
}

fn object(members: Vec<(&str, Json)>) -> Json {
    Json::Object(members.into_iter().map(|(k, v)| (k.to_string(), v)).collect())
}

fn digest(last: u8) -> B256 {
    let mut bytes = [0u8; 32];
    bytes[31] = last;
    B256 { bytes }
}

fn digest_text(last: u8) -> String {
    format!("0x{}{:02x}", "00".repeat(31), last)
}

#[test]
fn quantity_is_read_in_base_16() {
    assert_eq!(parse_quantity("0x10"), Some(U256::from_u64(16)));
    assert_eq!(parse_quantity("0x0"), Some(U256::zero()));
    assert_eq!(parse_quantity("ff"), Some(U256::from_u64(255)));
    assert_eq!(parse_quantity("0xFF"), Some(U256::from_u64(255)));
    assert_eq!(parse_quantity("0x0x10"), Some(U256::from_u64(16)));
    assert_eq!(parse_quantity(""), Some(U256::zero()));
    assert_eq!(parse_quantity("0x"), Some(U256::zero()));
    assert_eq!(parse_quantity("0x1_0"), Some(U256::from_u64(16)));
    assert_eq!(parse_quantity("0xg"), None);
    assert_eq!(parse_quantity("0X10"), None);
    assert_eq!(parse_quantity("12 "), None);
}

#[test]
fn quantity_fills_all_four_limbs() {
    let all = format!("0x{}", "f".repeat(64));
    assert_eq!(parse_quantity(&all), Some(U256 { limbs: [u64::MAX; 4] }));
    let too_long = format!("0x1{}", "0".repeat(64));
    assert_eq!(parse_quantity(&too_long), None);
    let padded = format!("0x000{}", "f".repeat(64));
    assert_eq!(parse_quantity(&padded), Some(U256 { limbs: [u64::MAX; 4] }));
    assert_eq!(
        parse_quantity("0x10000000000000000"),
        Some(U256 { limbs: [0, 1, 0, 0] })
    );
    assert_eq!(parse_radix16("10000000000000000"), Some(U256 { limbs: [0, 1, 0, 0] }));
    assert_eq!(parse_radix16("0x10"), None);
}

#[test]
fn u256_knows_zero_and_64_bits() {
    assert!(U256::zero().is_zero());
    assert!(!U256 { limbs: [0, 0, 1, 0] }.is_zero());
    assert_eq!(U256::from_u64(7).to_u64(), Some(7));
    assert_eq!(U256 { limbs: [7, 1, 0, 0] }.to_u64(), None);
    assert_eq!(U256::from_u128(u128::MAX), U256 { limbs: [u64::MAX, u64::MAX, 0, 0] });
    assert_eq!(U256::from_u128(5), U256::from_u64(5));
}

#[test]
fn digest_takes_exactly_64_digits() {
    assert_eq!(parse_b256(&digest_text(0xab)), Some(digest(0xab)));
    assert_eq!(parse_b256(&digest_text(0xab)[2..]), Some(digest(0xab)));
    assert_eq!(parse_b256("0x0"), None);
    assert_eq!(parse_b256(""), None);
    assert_eq!(parse_b256(&format!("0x{}", "0".repeat(63))), None);
    assert_eq!(parse_b256(&format!("0x{}", "g".repeat(64))), None);
    let upper = format!("0X{}AB", "00".repeat(31));
    assert_eq!(parse_b256(&upper), Some(digest(0xab)));
    let first = format!("0x1f{}", "00".repeat(31));
    let mut bytes = [0u8; 32];
    bytes[0] = 0x1f;
    assert_eq!(parse_b256(&first), Some(B256 { bytes }));
}

#[test]
fn address_takes_exactly_40_digits() {
    let mut bytes = [0u8; 20];
    bytes[0] = 0x74;
    bytes[1] = 0x2d;
    bytes[19] = 0x6f;
    let text = format!("0x742d{}6f", "00".repeat(17));
    assert_eq!(parse_address(&text), Some(Address { bytes }));
    assert_eq!(
        parse_address("0x742d35Cc622C1E0532F7fd0e7c0e6f7D8F2B2B6f").map(|a| a.bytes[0]),
        Some(0x74)
    );
    assert_eq!(parse_address("0x0"), None);
    assert_eq!(parse_address(&digest_text(1)), None);
}

#[test]
fn block_is_decoded_member_by_member() {
    let value = object(vec![
        ("number", text("0x10")),
        ("hash", text(&digest_text(1))),
        ("parentHash", text(&digest_text(2))),
        ("timestamp", text("0x5f5e100")),
        ("gasUsed", text("0xe4e1c0")),
        ("gasLimit", text("0x1c9c380")),
        (
            "transactions",
            Json::Array(vec![
                text(&digest_text(3)),
                object(vec![("hash", text(&digest_text(4))), ("value", text("0x1"))]),
                text("not a hash"),
                Json::Null,
                object(vec![("hash", Json::Bool(true))]),
                object(vec![("from", text(&digest_text(5)))]),
            ]),
        ),
        ("miner", text(&format!("0x{}", "11".repeat(20)))),
        ("difficulty", text("0x2")),
        ("size", text("0x400")),
    ]);
    let block = parse_block(&value).unwrap();
    assert_eq!(block.number, U256::from_u64(16));
    assert_eq!(block.hash, digest(1));
    assert_eq!(block.parent_hash, digest(2));
    assert_eq!(block.timestamp, U256::from_u64(100_000_000));
    assert_eq!(block.gas_used, U256::from_u64(15_000_000));
    assert_eq!(block.gas_limit, U256::from_u64(30_000_000));
    assert_eq!(block.transactions, vec![digest(3), digest(4)]);
    assert_eq!(block.miner, Address { bytes: [0x11; 20] });
    assert_eq!(block.difficulty, U256::from_u64(2));
    assert_eq!(block.size, U256::from_u64(1024));
}

#[test]
fn missing_members_of_a_block_are_zero() {
    let block = parse_block(&object(vec![])).unwrap();
    assert_eq!(block.number, U256::zero());
    assert_eq!(block.hash, B256::zero());
    assert_eq!(block.parent_hash, B256::zero());
    assert_eq!(block.timestamp, U256::zero());
    assert_eq!(block.gas_used, U256::zero());
    assert_eq!(block.gas_limit, U256::zero());
    assert!(block.transactions.is_empty());
    assert_eq!(block.miner, Address::zero());
    assert_eq!(block.difficulty, U256::zero());
    assert_eq!(block.size, U256::zero());
}

#[test]
fn malformed_members_of_a_block_are_zero() {
    let value = object(vec![
        ("number", Json::Number("16".to_string())),
        ("hash", text("0x12")),
        ("gasUsed", text("0xnothex")),
        ("transactions", text("none")),
        ("miner", Json::Null),
    ]);
    let block = parse_block(&value).unwrap();
    assert_eq!(block.number, U256::zero());
    assert_eq!(block.hash, B256::zero());
    assert_eq!(block.gas_used, U256::zero());
    assert!(block.transactions.is_empty());
    assert_eq!(block.miner, Address::zero());
}

#[test]
fn the_first_member_of_a_name_counts() {
    let value = object(vec![("number", text("0x1")), ("number", text("0x2"))]);
    assert_eq!(parse_block(&value).unwrap().number, U256::from_u64(1));
}

#[test]
fn a_block_that_is_no_object_is_an_error() {
    assert_eq!(parse_block(&Json::Null), Err(DecodeError::InvalidBlock));
    assert_eq!(parse_block(&text("0x10")), Err(DecodeError::InvalidBlock));
    assert_eq!(parse_block(&Json::Array(vec![])), Err(DecodeError::InvalidBlock));
}

#[test]
fn transaction_is_merged_with_its_receipt() {
    let tx = object(vec![
        ("hash", text(&digest_text(9))),
        ("blockNumber", text("0x64")),
        ("from", text(&format!("0x{}", "aa".repeat(20)))),
        ("to", text(&format!("0x{}", "bb".repeat(20)))),
        ("value", text("0xde0b6b3a7640000")),
        ("gas", text("0x5208")),
        ("gasPrice", text("0x4a817c800")),
    ]);
    let receipt = object(vec![("gasUsed", text("0x5208")), ("status", text("0x1"))]);
    let t = parse_transaction(&tx, &receipt).unwrap();
    assert_eq!(t.hash, digest(9));
    assert_eq!(t.block_number, Some(U256::from_u64(100)));
    assert_eq!(t.from, Address { bytes: [0xaa; 20] });
    assert_eq!(t.to, Some(Address { bytes: [0xbb; 20] }));
    assert_eq!(t.value, U256::from_u64(1_000_000_000_000_000_000));
    assert_eq!(t.gas, U256::from_u64(21000));
    assert_eq!(t.gas_price, U256::from_u64(20_000_000_000));
    assert_eq!(t.gas_used, Some(U256::from_u64(21000)));
    assert_eq!(t.status, Some(U256::from_u64(1)));
}

#[test]
fn a_transaction_without_receipt_is_pending() {
    let tx = object(vec![("hash", text(&digest_text(9))), ("value", text("0x1"))]);
    let t = parse_transaction(&tx, &Json::Null).unwrap();
    assert_eq!(t.gas_used, None);
    assert_eq!(t.status, None);
    assert_eq!(t.hash, digest(9));
    assert_eq!(t.value, U256::from_u64(1));
    assert_eq!(t.block_number, None);
    assert_eq!(t.to, None);
    let t = parse_transaction(&tx, &object(vec![])).unwrap();
    assert_eq!(t.gas_used, None);
    assert_eq!(t.status, None);
}

#[test]
fn optional_members_that_do_not_parse_are_absent() {
    let tx = object(vec![("blockNumber", text("0xzz")), ("to", text("0x12"))]);
    let receipt = object(vec![("gasUsed", Json::Bool(false)), ("status", text("0x0"))]);
    let t = parse_transaction(&tx, &receipt).unwrap();
    assert_eq!(t.block_number, None);
    assert_eq!(t.to, None);
    assert_eq!(t.gas_used, None);
    assert_eq!(t.status, Some(U256::zero()));
}

#[test]
fn a_transaction_that_is_no_object_is_an_error() {
    assert_eq!(
        parse_transaction(&Json::Null, &object(vec![])),
        Err(DecodeError::InvalidTransaction)
    );
}

#[test]
fn block_number_is_read_behind_two_bytes() {
    assert_eq!(parse_block_number("0x10"), Ok(16));
    assert_eq!(parse_block_number("0xffffffffffffffff"), Ok(u64::MAX));
    assert_eq!(parse_block_number("ab10"), Ok(16));
    assert_eq!(parse_block_number("\u{e9}1"), Ok(1));
    assert_eq!(parse_block_number("0x"), Err(DecodeError::InvalidBlockNumber));
    assert_eq!(parse_block_number("0"), Err(DecodeError::InvalidBlockNumber));
    assert_eq!(parse_block_number(""), Err(DecodeError::InvalidBlockNumber));
    assert_eq!(parse_block_number("0\u{e9}1"), Err(DecodeError::InvalidBlockNumber));
    assert_eq!(parse_block_number("0x1_0"), Err(DecodeError::InvalidBlockNumber));
    assert_eq!(
        parse_block_number("0x10000000000000000"),
        Err(DecodeError::InvalidBlockNumber)
    );
}

#[test]
fn account_is_assembled_from_three_responses() {
    let address = format!("0x{}", "cd".repeat(20));
    let account = parse_account(&address, "0xde0b6b3a7640000", "0x5", "0x6080604052").unwrap();
    assert_eq!(account.address, Address { bytes: [0xcd; 20] });
    assert_eq!(account.balance, U256::from_u64(1_000_000_000_000_000_000));
    assert_eq!(account.nonce, U256::from_u64(5));
    assert_eq!(account.code_size, U256::from_u64(5));
    let eoa = parse_account(&address, "0x0", "0x0", "0x").unwrap();
    assert_eq!(eoa.code_size, U256::zero());
    assert!(eoa.balance.is_zero());
}

#[test]
fn account_names_the_first_response_that_fails() {
    let address = format!("0x{}", "cd".repeat(20));
    assert_eq!(parse_account("0x12", "0x", "zz", ""), Err(DecodeError::InvalidAddress));
    assert_eq!(parse_account(&address, "0", "zz", ""), Err(DecodeError::InvalidBalance));
    assert_eq!(parse_account(&address, "0xzz", "0x1", "0x"), Err(DecodeError::InvalidBalance));
    assert_eq!(parse_account(&address, "0x1", "0xzz", ""), Err(DecodeError::InvalidNonce));
    assert_eq!(parse_account(&address, "0x1", "0x1", "0"), Err(DecodeError::InvalidCode));
    assert_eq!(parse_account(&address, "0x1", "0x1", ""), Err(DecodeError::InvalidCode));
}

#[test]
fn json_answers_by_member_and_kind() {
    let value = object(vec![("a", text("x")), ("b", Json::Array(vec![Json::Null]))]);
    assert_eq!(value.get_str("a"), Some("x"));
    assert_eq!(value.get_str("b"), None);
    assert_eq!(value.get_str("c"), None);
    assert!(value.get("b").unwrap().as_array().is_some());
    assert!(value.is_obj());
    assert!(!text("x").is_obj());
    assert!(text("x").get("a").is_none());
    assert_eq!(Json::string("x").as_str(), Some("x"));
    let copy = value.clone();
    assert_eq!(copy.get_str("a"), Some("x"));
    assert_eq!(copy.get("b").unwrap().as_array().map(|items| items.len()), Some(1));
}

#[test]
fn u256_is_shown_in_decimal() {
    assert_eq!(U256::zero().to_decimal_string(), "0");
    assert_eq!(U256::from_u64(16).to_decimal_string(), "16");
    assert_eq!(U256 { limbs: [0, 1, 0, 0] }.to_decimal_string(), "18446744073709551616");
    assert_eq!(
        U256 { limbs: [u64::MAX; 4] }.to_decimal_string(),
        "115792089237316195423570985008687907853269984665640564039457584007913129639935"
    );
}

#[test]
fn u256_product_wraps_at_256_bits() {
    let a = U256::from_u64(20_000_000_000);
    let b = U256::from_u64(21_000);
    assert_eq!(a.wrapping_mul(&b), U256::from_u64(420_000_000_000_000));
    let big = U256 { limbs: [0, 0, 0, 1 << 63] };
    assert_eq!(big.wrapping_mul(&U256::from_u64(2)), U256::zero());
    assert_eq!(big.wrapping_mul(&U256::from_u64(3)), big);
    let max = U256::from_u64(u64::MAX);
    assert_eq!(max.wrapping_mul(&max), U256 { limbs: [1, u64::MAX - 1, 0, 0] });
}

#[test]
fn the_fee_is_price_times_gas_used() {
    let tx = object(vec![("gasPrice", text("0x4a817c800"))]);
    let receipt = object(vec![("gasUsed", text("0x5208"))]);
    let t = parse_transaction(&tx, &receipt).unwrap();
    assert_eq!(t.fee(), Some(U256::from_u64(420_000_000_000_000)));
    let pending = parse_transaction(&tx, &Json::Null).unwrap();
    assert_eq!(pending.fee(), None);
}
