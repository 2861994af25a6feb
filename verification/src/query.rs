//! The queries that the client answers: for each one its requests to the
//! node, its fingerprint in the cache, and the reply that the responses
//! denote.

use vstd::prelude::*;
use crate::json::{Json, JsonTree, trees};
use crate::hex::{
    hex_text, hex_digits_of, decimal_text, to_hex, decimal_chars, lemma_hex_digits_value,
    lemma_decimal_text_value,
};
use crate::text::{push_str, push_all, string_of};
use crate::entities::{
    Block, BlockView, Transaction, TransactionView, Account, AccountView,
};
use crate::decode::{
    DecodeError, block_of, transaction_of, account_of, block_number_of, parse_block,
    parse_transaction, parse_account, parse_block_number,
};

verus! {

/// A question to the node.
#[derive(Debug)]
pub enum Query {
    /// The block of this height.
    BlockByNumber(u64),
    /// The block of this hash.
    BlockByHash(String),
    /// The height of the chain's head.
    LatestBlockNumber,
    /// The transaction of this hash, with its receipt.
    Transaction(String),
    /// The account at this address, at the given height or at the head.
    AccountBalance { address: String, block: Option<u64> },
}

/// One positional parameter of a request.
#[derive(Debug, Clone, PartialEq, Eq)]
pub enum RpcParam {
    Text(String),
    Flag(bool),
}

/// What a parameter is.
pub enum ParamView {
    Text(Seq<char>),
    Flag(bool),
}

impl View for RpcParam {
    type V = ParamView;

    open spec fn view(&self) -> ParamView {
        match self {
            RpcParam::Text(s) => ParamView::Text(s@),
            RpcParam::Flag(b) => ParamView::Flag(*b),
        }
    }
}

/// One JSON-RPC request.
#[derive(Debug, Clone, PartialEq, Eq)]
pub struct RpcRequest {
    pub method: String,
    pub params: Vec<RpcParam>,
    /// Whether the result must be a JSON string; any result will do
    /// otherwise.
    pub expects_text: bool,
}

/// What a request is.
pub struct RequestView {
    pub method: Seq<char>,
    pub params: Seq<ParamView>,
    pub expects_text: bool,
}

impl View for RpcRequest {
    type V = RequestView;

    open spec fn view(&self) -> RequestView {
        RequestView {
            method: self.method@,
            params: self.params@.map_values(|p: RpcParam| p@),
            expects_text: self.expects_text,
        }
    }
}

/// The answer to a query.
#[derive(Debug, Clone, PartialEq, Eq)]
pub enum Reply {
    Block(Block),
    BlockNumber(u64),
    Transaction(Transaction),
    Account(Account),
}

/// What a reply is.
pub enum ReplyView {
    Block(BlockView),
    BlockNumber(u64),
    Transaction(TransactionView),
    Account(AccountView),
}

impl View for Reply {
    type V = ReplyView;

    open spec fn view(&self) -> ReplyView {
        match self {
            Reply::Block(b) => ReplyView::Block(b@),
            Reply::BlockNumber(n) => ReplyView::BlockNumber(*n),
            Reply::Transaction(t) => ReplyView::Transaction(t@),
            Reply::Account(a) => ReplyView::Account(a@),
        }
    }
}

/// The block tag of an account query: the height in hexadecimal, or
/// `latest` where none is given.
pub open spec fn block_tag(block: Option<u64>) -> Seq<char> {
    match block {
        Some(n) => hex_text(n as nat),
        None => "latest"@,
    }
}

/// How many calls a query takes when the cache has no answer.
pub open spec fn calls_needed(query: Query) -> nat {
    match query {
        Query::Transaction(_) => 2,
        Query::AccountBalance { .. } => 3,
        _ => 1,
    }
}

/// The method of the call number `stage` of a query.
pub open spec fn method_of(query: Query, stage: nat) -> Seq<char> {
    match query {
        Query::BlockByNumber(_) => "eth_getBlockByNumber"@,
        Query::BlockByHash(_) => "eth_getBlockByHash"@,
        Query::LatestBlockNumber => "eth_blockNumber"@,
        Query::Transaction(_) => if stage == 0 {
            "eth_getTransactionByHash"@
        } else {
            "eth_getTransactionReceipt"@
        },
        Query::AccountBalance { .. } => if stage == 0 {
            "eth_getBalance"@
        } else if stage == 1 {
            "eth_getTransactionCount"@
        } else {
            "eth_getCode"@
        },
    }
}

/// The parameters of every call of a query. A block is asked for with its
/// transactions in full.
pub open spec fn params_of(query: Query) -> Seq<ParamView> {
    match query {
        Query::BlockByNumber(n) => seq![ParamView::Text(hex_text(n as nat)), ParamView::Flag(true)],
        Query::BlockByHash(hash) => seq![ParamView::Text(hash@), ParamView::Flag(true)],
        Query::LatestBlockNumber => Seq::empty(),
        Query::Transaction(hash) => seq![ParamView::Text(hash@)],
        Query::AccountBalance { address, block } => seq![
            ParamView::Text(address@),
            ParamView::Text(block_tag(block)),
        ],
    }
}

/// Whether the calls of a query return a JSON string.
pub open spec fn expects_text(query: Query) -> bool {
    query is LatestBlockNumber || query is AccountBalance
}

/// The request of the call number `stage` of a query.
pub open spec fn request_of(query: Query, stage: nat) -> RequestView {
    RequestView {
        method: method_of(query, stage),
        params: params_of(query),
        expects_text: expects_text(query),
    }
}

/// The fingerprint under which the answer to a query is cached. The
/// height of the head has none: it is never cached.
pub open spec fn cache_key_of(query: Query) -> Option<Seq<char>> {
    match query {
        Query::BlockByNumber(n) => Some("block_"@ + decimal_text(n as nat)),
        Query::BlockByHash(hash) => Some("block_hash_"@ + hash@),
        Query::LatestBlockNumber => None,
        Query::Transaction(hash) => Some("tx_"@ + hash@),
        Query::AccountBalance { address, block } => Some(
            "balance_"@ + address@ + "_"@ + block_tag(block),
        ),
    }
}

/// The text of a response that should be a JSON string; no text at all
/// where it is none.
pub open spec fn text_or_empty(response: JsonTree) -> Seq<char> {
    match response.text() {
        Some(s) => s,
        None => Seq::empty(),
    }
}

/// The reply that the responses to the calls of a query denote, or why
/// they denote none.
pub open spec fn reply_of(query: Query, responses: Seq<JsonTree>) -> Result<ReplyView, DecodeError>
    recommends
        responses.len() == calls_needed(query),
{
    match query {
        Query::BlockByNumber(_) | Query::BlockByHash(_) => if responses[0].is_object() {
            Ok(ReplyView::Block(block_of(responses[0])))
        } else {
            Err(DecodeError::InvalidBlock)
        },
        Query::LatestBlockNumber => match block_number_of(text_or_empty(responses[0])) {
            Some(n) => Ok(ReplyView::BlockNumber(n)),
            None => Err(DecodeError::InvalidBlockNumber),
        },
        Query::Transaction(_) => if responses[0].is_object() {
            Ok(ReplyView::Transaction(transaction_of(responses[0], responses[1])))
        } else {
            Err(DecodeError::InvalidTransaction)
        },
        Query::AccountBalance { address, block } => match account_of(
            address@,
            text_or_empty(responses[0]),
            text_or_empty(responses[1]),
            text_or_empty(responses[2]),
        ) {
            Ok(a) => Ok(ReplyView::Account(a)),
            Err(e) => Err(e),
        },
    }
}

/// The two queries ask the same thing.
pub open spec fn same_query(a: Query, b: Query) -> bool {
    match (a, b) {
        (Query::BlockByNumber(m), Query::BlockByNumber(n)) => m == n,
        (Query::BlockByHash(g), Query::BlockByHash(h)) => g@ == h@,
        (Query::LatestBlockNumber, Query::LatestBlockNumber) => true,
        (Query::Transaction(g), Query::Transaction(h)) => g@ == h@,
        (
            Query::AccountBalance { address: a1, block: b1 },
            Query::AccountBalance { address: a2, block: b2 },
        ) => a1@ == a2@ && b1 == b2,
        _ => false,
    }
}

/// What stands behind a common beginning is equal where the wholes are.
proof fn lemma_cancel_prefix(p: Seq<char>, x: Seq<char>, y: Seq<char>)
    requires
        p + x == p + y,
    ensures
        x == y,
{
    assert((p + x).skip(p.len() as int) =~= x);
    assert((p + y).skip(p.len() as int) =~= y);
}

/// A block tag is not empty, holds no `_`, and belongs to one block only.
pub proof fn lemma_block_tag(a: Option<u64>, b: Option<u64>)
    ensures
        block_tag(a).len() > 0,
        forall|i: int| 0 <= i < block_tag(a).len() ==> #[trigger] block_tag(a)[i] != '_',
        block_tag(a) == block_tag(b) ==> a == b,
{
    reveal_strlit("latest");
    match a {
        Some(m) => {
            lemma_hex_digits_value(m as nat);
            let t = hex_text(m as nat);
            assert forall|i: int| 0 <= i < t.len() implies #[trigger] t[i] != '_' by {
                if i >= 2 {
                    assert(t[i] == hex_digits_of(m as nat)[i - 2]);
                }
            }
        },
        None => {},
    }
    if block_tag(a) == block_tag(b) {
        match (a, b) {
            (Some(m), Some(n)) => {
                lemma_hex_digits_value(m as nat);
                lemma_hex_digits_value(n as nat);
                lemma_cancel_prefix(
                    seq!['0', 'x'],
                    hex_digits_of(m as nat),
                    hex_digits_of(n as nat),
                );
            },
            (Some(m), None) => {
                assert(hex_text(m as nat)[0] == '0');
                assert("latest"@[0] == 'l');
            },
            (None, Some(n)) => {
                assert(hex_text(n as nat)[0] == '0');
                assert("latest"@[0] == 'l');
            },
            (None, None) => {},
        }
    }
}

/// The fingerprint of an account query: `balance_`, the address, `_` and
/// the tag.
proof fn lemma_balance_key(address: Seq<char>, tag: Seq<char>)
    ensures
        ("balance_"@ + address + "_"@ + tag).len() == 9 + address.len() + tag.len(),
        ("balance_"@ + address + "_"@ + tag)[0] == 'b',
        ("balance_"@ + address + "_"@ + tag)[1] == 'a',
        ("balance_"@ + address + "_"@ + tag)[8 + address.len() as int] == '_',
        forall|i: int|
            0 <= i < address.len() ==> #[trigger] ("balance_"@ + address + "_"@ + tag)[8 + i]
                == address[i],
        forall|i: int|
            0 <= i < tag.len() ==> #[trigger] ("balance_"@ + address + "_"@ + tag)[9
                + address.len() as int + i] == tag[i],
{
    reveal_strlit("balance_");
    reveal_strlit("_");
}

/// Two account queries of one fingerprint have one address and one tag.
proof fn lemma_balance_key_parts(a1: Seq<char>, t1: Seq<char>, a2: Seq<char>, t2: Seq<char>)
    requires
        "balance_"@ + a1 + "_"@ + t1 == "balance_"@ + a2 + "_"@ + t2,
        forall|i: int| 0 <= i < t1.len() ==> #[trigger] t1[i] != '_',
        forall|i: int| 0 <= i < t2.len() ==> #[trigger] t2[i] != '_',
    ensures
        a1 == a2,
        t1 == t2,
{
    let k = "balance_"@ + a1 + "_"@ + t1;
    lemma_balance_key(a1, t1);
    lemma_balance_key(a2, t2);
    if a1.len() < a2.len() {
        let i = a2.len() - a1.len() - 1;
        assert(k[9 + a1.len() + i] == t1[i]);
        assert(false);
    }
    if a2.len() < a1.len() {
        let i = a1.len() - a2.len() - 1;
        assert(k[9 + a2.len() + i] == t2[i]);
        assert(false);
    }
    assert forall|i: int| 0 <= i < a1.len() implies a1[i] == a2[i] by {
        assert(k[8 + i] == a1[i]);
        assert(k[8 + i] == a2[i]);
    }
    assert(a1 =~= a2);
    assert forall|i: int| 0 <= i < t1.len() implies t1[i] == t2[i] by {
        assert(k[9 + a1.len() + i] == t1[i]);
        assert(k[9 + a2.len() + i] == t2[i]);
    }
    assert(t1 =~= t2);
}

/// The fingerprint law: two queries that are cached under one
/// fingerprint ask the same thing. So queries by height and by hash,
/// for different transactions, or for one account at different blocks
/// never answer one another.
pub proof fn lemma_fingerprints_are_distinct(a: Query, b: Query)
    requires
        cache_key_of(a) is Some,
        cache_key_of(a) == cache_key_of(b),
    ensures
        same_query(a, b),
{
    reveal_strlit("block_");
    reveal_strlit("block_hash_");
    reveal_strlit("tx_");
    let k = cache_key_of(a)->0;
    match a {
        Query::BlockByNumber(m) => {
            lemma_decimal_text_value(m as nat);
            let d = decimal_text(m as nat);
            assert(k[0] == 'b' && k[1] == 'l');
            assert(k[6] == d[0]);
            match b {
                Query::BlockByNumber(n) => {
                    lemma_decimal_text_value(n as nat);
                    lemma_cancel_prefix("block_"@, d, decimal_text(n as nat));
                },
                Query::BlockByHash(h) => {
                    assert(("block_hash_"@ + h@)[6] == 'h');
                },
                Query::Transaction(h) => {
                    assert(("tx_"@ + h@)[0] == 't');
                },
                Query::AccountBalance { address, block } => {
                    lemma_balance_key(address@, block_tag(block));
                },
                Query::LatestBlockNumber => {},
            }
        },
        Query::BlockByHash(g) => {
            assert(k[0] == 'b' && k[1] == 'l' && k[6] == 'h');
            match b {
                Query::BlockByNumber(n) => {
                    lemma_decimal_text_value(n as nat);
                    assert(("block_"@ + decimal_text(n as nat))[6] == decimal_text(n as nat)[0]);
                },
                Query::BlockByHash(h) => {
                    lemma_cancel_prefix("block_hash_"@, g@, h@);
                },
                Query::Transaction(h) => {
                    assert(("tx_"@ + h@)[0] == 't');
                },
                Query::AccountBalance { address, block } => {
                    lemma_balance_key(address@, block_tag(block));
                },
                Query::LatestBlockNumber => {},
            }
        },
        Query::LatestBlockNumber => {},
        Query::Transaction(g) => {
            assert(k[0] == 't');
            match b {
                Query::BlockByNumber(n) => {
                    assert(("block_"@ + decimal_text(n as nat))[0] == 'b');
                },
                Query::BlockByHash(h) => {
                    assert(("block_hash_"@ + h@)[0] == 'b');
                },
                Query::Transaction(h) => {
                    lemma_cancel_prefix("tx_"@, g@, h@);
                },
                Query::AccountBalance { address, block } => {
                    lemma_balance_key(address@, block_tag(block));
                },
                Query::LatestBlockNumber => {},
            }
        },
        Query::AccountBalance { address: a1, block: b1 } => {
            lemma_balance_key(a1@, block_tag(b1));
            match b {
                Query::BlockByNumber(n) => {
                    assert(("block_"@ + decimal_text(n as nat))[1] == 'l');
                },
                Query::BlockByHash(h) => {
                    assert(("block_hash_"@ + h@)[1] == 'l');
                },
                Query::Transaction(h) => {
                    assert(("tx_"@ + h@)[0] == 't');
                },
                Query::AccountBalance { address: a2, block: b2 } => {
                    lemma_block_tag(b1, b2);
                    lemma_block_tag(b2, b1);
                    lemma_balance_key_parts(a1@, block_tag(b1), a2@, block_tag(b2));
                },
                Query::LatestBlockNumber => {},
            }
        },
    }
}

/// The text of a response that should be a JSON string.
fn response_text(response: &Json) -> (s: &str)
    ensures
        s@ == text_or_empty(response@),
{
    match response.as_str() {
        Some(s) => s,
        None => {
            let empty: &str = "";
            proof {
                reveal_strlit("");
            }
            assert(empty@ =~= Seq::<char>::empty());
            empty
        },
    }
}

/// Decodes the responses to the calls of a query.
pub fn decode_reply(query: &Query, responses: &Vec<Json>) -> (r: Result<Reply, DecodeError>)
    requires
        responses.len() == calls_needed(*query),
    ensures
        r is Ok == reply_of(*query, trees(responses@)) is Ok,
        r matches Ok(reply) ==> reply_of(*query, trees(responses@)) == Ok::<
            ReplyView,
            DecodeError,
        >(reply@),
        r matches Err(e) ==> reply_of(*query, trees(responses@)) == Err::<ReplyView, DecodeError>(
            e,
        ),
{
    match query {
        Query::BlockByNumber(_) | Query::BlockByHash(_) => match parse_block(&responses[0]) {
            Ok(block) => Ok(Reply::Block(block)),
            Err(e) => Err(e),
        },
        Query::LatestBlockNumber => match parse_block_number(response_text(&responses[0])) {
            Ok(n) => Ok(Reply::BlockNumber(n)),
            Err(e) => Err(e),
        },
        Query::Transaction(_) => match parse_transaction(&responses[0], &responses[1]) {
            Ok(tx) => Ok(Reply::Transaction(tx)),
            Err(e) => Err(e),
        },
        Query::AccountBalance { address, block } => match parse_account(
            address.as_str(),
            response_text(&responses[0]),
            response_text(&responses[1]),
            response_text(&responses[2]),
        ) {
            Ok(account) => Ok(Reply::Account(account)),
            Err(e) => Err(e),
        },
    }
}

/// The tag of an account query's block.
pub fn block_tag_text(block: Option<u64>) -> (tag: String)
    ensures
        tag@ == block_tag(block),
{
    match block {
        Some(n) => to_hex(n),
        None => "latest".to_owned(),
    }
}

impl Query {
    /// How many calls the query takes when the cache has no answer.
    pub fn calls(&self) -> (n: usize)
        ensures
            n == calls_needed(*self),
    {
        match self {
            Query::Transaction(_) => 2,
            Query::AccountBalance { .. } => 3,
            _ => 1,
        }
    }

    /// The request of the call number `stage`.
    pub fn request(&self, stage: usize) -> (r: RpcRequest)
        ensures
            r@ == request_of(*self, stage as nat),
    {
        let ghost view_of = |p: RpcParam| p@;
        let mut params: Vec<RpcParam> = Vec::new();
        let method: &str;
        let expects_text: bool;
        match self {
            Query::BlockByNumber(n) => {
                method = "eth_getBlockByNumber";
                expects_text = false;
                params.push(RpcParam::Text(to_hex(*n)));
                params.push(RpcParam::Flag(true));
            },
            Query::BlockByHash(hash) => {
                method = "eth_getBlockByHash";
                expects_text = false;
                params.push(RpcParam::Text(hash.clone()));
                params.push(RpcParam::Flag(true));
            },
            Query::LatestBlockNumber => {
                method = "eth_blockNumber";
                expects_text = true;
            },
            Query::Transaction(hash) => {
                method = if stage == 0 {
                    "eth_getTransactionByHash"
                } else {
                    "eth_getTransactionReceipt"
                };
                expects_text = false;
                params.push(RpcParam::Text(hash.clone()));
            },
            Query::AccountBalance { address, block } => {
                method = if stage == 0 {
                    "eth_getBalance"
                } else if stage == 1 {
                    "eth_getTransactionCount"
                } else {
                    "eth_getCode"
                };
                expects_text = true;
                params.push(RpcParam::Text(address.clone()));
                params.push(RpcParam::Text(block_tag_text(*block)));
            },
        }
        assert(params@.map_values(view_of) =~= params_of(*self));
        RpcRequest { method: method.to_owned(), params, expects_text }
    }

    /// The fingerprint under which the answer is cached, if it is cached.
    pub fn cache_key(&self) -> (key: Option<String>)
        ensures
            key is Some == cache_key_of(*self) is Some,
            key matches Some(k) ==> cache_key_of(*self) == Some(k@),
    {
        let mut out: Vec<char> = Vec::new();
        match self {
            Query::BlockByNumber(n) => {
                push_str(&mut out, "block_");
                let digits = decimal_chars(*n);
                push_all(&mut out, &digits);
            },
            Query::BlockByHash(hash) => {
                push_str(&mut out, "block_hash_");
                push_str(&mut out, hash.as_str());
            },
            Query::LatestBlockNumber => {
                return None;
            },
            Query::Transaction(hash) => {
                push_str(&mut out, "tx_");
                push_str(&mut out, hash.as_str());
            },
            Query::AccountBalance { address, block } => {
                push_str(&mut out, "balance_");
                push_str(&mut out, address.as_str());
                push_str(&mut out, "_");
                let tag = block_tag_text(*block);
                push_str(&mut out, tag.as_str());
            },
        }
        let key = string_of(&out);
        assert(cache_key_of(*self) == Some(key@)) by {
            assert(cache_key_of(*self)->0 =~= out@);
        }
        Some(key)
    }
}

} // verus!
