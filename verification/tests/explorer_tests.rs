use eth_data_extractor::explorer::{
    block_query, latest_blocks_start, transaction_preview, ExplorerError,
};
use eth_data_extractor::query::Query;

#[test]
fn a_block_is_named_by_hash_or_height() {
    assert!(matches!(block_query("0xabc"), Ok(Query::BlockByHash(h)) if h == "0xabc"));
    assert!(matches!(block_query("0x"), Ok(Query::BlockByHash(h)) if h == "0x"));
    assert!(matches!(block_query("12345"), Ok(Query::BlockByNumber(12345))));
    assert!(matches!(block_query("+7"), Ok(Query::BlockByNumber(7))));
    assert!(matches!(block_query("007"), Ok(Query::BlockByNumber(7))));
    assert!(matches!(
        block_query("18446744073709551615"),
        Ok(Query::BlockByNumber(u64::MAX))
    ));
    for bad in ["", "+", "-1", "12a", " 12", "0X10", "18446744073709551616", "1_000"] {
        assert!(matches!(block_query(bad), Err(ExplorerError::InvalidBlockNumber)));
    }
    assert_eq!(ExplorerError::InvalidBlockNumber.message(), "Invalid block number");
}

#[test]
fn the_latest_blocks_end_at_the_head() {
    assert_eq!(latest_blocks_start(100, 10), 91);
    assert_eq!(latest_blocks_start(100, 1), 100);
    assert_eq!(latest_blocks_start(5, 10), 0);
    assert_eq!(latest_blocks_start(9, 10), 0);
    assert_eq!(latest_blocks_start(0, 1), 0);
}

#[test]
fn five_transactions_are_listed() {
    assert_eq!(transaction_preview(0), (0, 0));
    assert_eq!(transaction_preview(3), (3, 0));
    assert_eq!(transaction_preview(5), (5, 0));
    assert_eq!(transaction_preview(12), (5, 7));
}
