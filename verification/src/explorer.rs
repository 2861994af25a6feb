//! What the explorer decides before it asks the client: which query a
//! block identifier means, which blocks the list of latest blocks shows,
//! and how many transactions of a block are listed.

use vstd::prelude::*;
use crate::hex::{str_parse_u64, parse_decimal_u64};
use crate::query::Query;
use crate::text::{chars_of, has_prefix};
use crate::primitives::lemma_has_prefix_0x;

verus! {

/// How many transactions of a block are listed.
pub const TRANSACTION_PREVIEW: usize = 5;

/// Why the explorer cannot ask.
#[derive(Debug, Clone, Copy, PartialEq, Eq, Structural)]
pub enum ExplorerError {
    /// The block identifier is neither a hash nor a decimal height.
    InvalidBlockNumber,
}

impl ExplorerError {
    /// The error in words.
    pub fn message(&self) -> (r: &'static str)
        ensures
            r@ == "Invalid block number"@,
    {
        "Invalid block number"
    }
}

/// The query for the block that `block_id` identifies: by hash for a
/// text that begins with `0x`, by height for a decimal number, and none
/// for any other text.
pub fn block_query(block_id: &str) -> (r: Result<Query, ExplorerError>)
    ensures
        has_prefix(block_id@, seq!['0', 'x']) ==> r is Ok && r->Ok_0 is BlockByHash
            && r->Ok_0->BlockByHash_0@ == block_id@,
        !has_prefix(block_id@, seq!['0', 'x']) ==> r is Ok == parse_decimal_u64(block_id@)
            is Some,
        !has_prefix(block_id@, seq!['0', 'x']) && r is Ok ==> r->Ok_0 == Query::BlockByNumber(
            parse_decimal_u64(block_id@)->0,
        ),
        r matches Err(e) ==> e == ExplorerError::InvalidBlockNumber,
{
    let v = chars_of(block_id);
    proof {
        lemma_has_prefix_0x(v@);
    }
    if v.len() >= 2 && v[0] == '0' && v[1] == 'x' {
        Ok(Query::BlockByHash(block_id.to_owned()))
    } else {
        match str_parse_u64(block_id) {
            Some(n) => Ok(Query::BlockByNumber(n)),
            None => Err(ExplorerError::InvalidBlockNumber),
        }
    }
}

/// The lowest of the `count` latest blocks below and with the head
/// `latest`; they are shown from the head down to it.
pub fn latest_blocks_start(latest: u64, count: usize) -> (start: u64)
    requires
        count >= 1,
    ensures
        start == if latest >= count - 1 {
            latest - (count - 1)
        } else {
            0
        },
        start <= latest,
{
    let back: u64 = (count - 1) as u64;
    if back <= latest {
        latest - back
    } else {
        0
    }
}

/// How many of a block's `transactions` transactions are listed, and how
/// many are only counted.
pub fn transaction_preview(transactions: usize) -> (r: (usize, usize))
    ensures
        r.0 == if transactions < TRANSACTION_PREVIEW {
            transactions
        } else {
            TRANSACTION_PREVIEW
        },
        r.0 + r.1 == transactions,
{
    if transactions > TRANSACTION_PREVIEW {
        (TRANSACTION_PREVIEW, transactions - TRANSACTION_PREVIEW)
    } else {
        (transactions, 0)
    }
}

} // verus!
