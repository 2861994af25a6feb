use eth_data_extractor::cache::ResponseCache;
use eth_data_extractor::decode::DecodeError;
use eth_data_extractor::json::Json;
use eth_data_extractor::primitives::U256;
use eth_data_extractor::query::{Query, Reply, RpcParam};
use eth_data_extractor::retry::{decide, RetryDecision, RetryPolicy, RetryStep};
use eth_data_extractor::rpc::{on_lookup, probe_request, ClientError, Pending, RethClient, Step};

fn text(s: &str) -> Json {
    Json::Text(s.to_string())
}

fn object(members: Vec<(&str, Json)>) -> Json {
    Json::Object(members.into_iter().map(|(k, v)| (k.to_string(), v)).collect())
}

fn client() -> RethClient {
    RethClient::new("http://localhost:8545", Ok("0x1".to_string())).unwrap()
}

fn block_payload(number: &str, gas_used: &str) -> Json {
    object(vec![("number", text(number)), ("gasUsed", text(gas_used))])
}

fn sent(step: Step) -> Pending {
    match step {
        Step::Send(pending) => pending,
        Step::Wait(_, _) => panic!("a wait where a call was due"),
        Step::Done(_) => panic!("an answer where a call was due"),
    }
}

fn done(step: Step) -> Result<Reply, ClientError> {
    match step {
        Step::Done(result) => result,
        _ => panic!("a call where an answer was due"),
    }
}

#[test]
fn a_failed_probe_gives_no_client() {
    let failed = RethClient::new("http://localhost:8545", Err("refused".to_string()));
    assert!(matches!(failed, Err(ClientError::Connection(ref m)) if m == "refused"));
    assert_eq!(client().rpc_url(), "http://localhost:8545");
    let probe = probe_request();
    assert_eq!(probe.method, "eth_chainId");
    assert!(probe.params.is_empty());
    assert!(probe.expects_text);
}

#[test]
fn requests_follow_the_protocol() {
    let r = Query::BlockByNumber(255).request(0);
    assert_eq!(r.method, "eth_getBlockByNumber");
    assert_eq!(r.params, vec![RpcParam::Text("0xff".to_string()), RpcParam::Flag(true)]);
    assert!(!r.expects_text);
    let r = Query::BlockByHash("0xabc".to_string()).request(0);
    assert_eq!(r.method, "eth_getBlockByHash");
    assert_eq!(r.params, vec![RpcParam::Text("0xabc".to_string()), RpcParam::Flag(true)]);
    let r = Query::LatestBlockNumber.request(0);
    assert_eq!(r.method, "eth_blockNumber");
    assert!(r.params.is_empty());
    assert!(r.expects_text);
    let tx = Query::Transaction("0xdef".to_string());
    assert_eq!(tx.request(0).method, "eth_getTransactionByHash");
    assert_eq!(tx.request(1).method, "eth_getTransactionReceipt");
    assert_eq!(tx.request(1).params, vec![RpcParam::Text("0xdef".to_string())]);
    let account = Query::AccountBalance { address: "0xa".to_string(), block: Some(16) };
    assert_eq!(account.request(0).method, "eth_getBalance");
    assert_eq!(account.request(1).method, "eth_getTransactionCount");
    assert_eq!(account.request(2).method, "eth_getCode");
    assert_eq!(
        account.request(2).params,
        vec![RpcParam::Text("0xa".to_string()), RpcParam::Text("0x10".to_string())]
    );
    let head = Query::AccountBalance { address: "0xa".to_string(), block: None };
    assert_eq!(
        head.request(0).params,
        vec![RpcParam::Text("0xa".to_string()), RpcParam::Text("latest".to_string())]
    );
    assert!(head.request(0).expects_text);
    assert_eq!(tx.calls(), 2);
    assert_eq!(head.calls(), 3);
    assert_eq!(Query::LatestBlockNumber.calls(), 1);
}

#[test]
fn fingerprints_tell_queries_apart() {
    assert_eq!(Query::BlockByNumber(255).cache_key(), Some("block_255".to_string()));
    assert_eq!(Query::BlockByNumber(0).cache_key(), Some("block_0".to_string()));
    assert_eq!(
        Query::BlockByHash("0xabc".to_string()).cache_key(),
        Some("block_hash_0xabc".to_string())
    );
    assert_eq!(Query::Transaction("0xdef".to_string()).cache_key(), Some("tx_0xdef".to_string()));
    assert_eq!(
        Query::AccountBalance { address: "0xa".to_string(), block: Some(255) }.cache_key(),
        Some("balance_0xa_0xff".to_string())
    );
    assert_eq!(
        Query::AccountBalance { address: "0xa".to_string(), block: None }.cache_key(),
        Some("balance_0xa_latest".to_string())
    );
    assert_eq!(Query::LatestBlockNumber.cache_key(), None);
}

#[test]
fn a_block_is_fetched_once_and_then_found() {
    let mut client = client();
    let pending = sent(client.get_block_by_number(16));
    assert_eq!(pending.request().method, "eth_getBlockByNumber");
    assert_eq!(pending.attempts_made(), 0);
    let step = client.advance(pending, Ok(block_payload("0x10", "0x5208")), 1_000);
    let first = match done(step) {
        Ok(Reply::Block(block)) => block,
        other => panic!("no block: {:?}", other),
    };
    assert_eq!(first.number, U256::from_u64(16));
    assert_eq!(first.gas_used, U256::from_u64(21000));
    let second = match done(client.get_block_by_number(16)) {
        Ok(Reply::Block(block)) => block,
        other => panic!("no block: {:?}", other),
    };
    assert_eq!(second, first);
    let other = sent(client.get_block_by_number(17));
    assert_eq!(other.request().params[0], RpcParam::Text("0x11".to_string()));
}

#[test]
fn a_block_by_hash_has_its_own_entry() {
    let mut client = client();
    let pending = sent(client.get_block_by_hash("0xabc"));
    assert_eq!(pending.request().method, "eth_getBlockByHash");
    let step = client.advance(pending, Ok(block_payload("0x10", "0x1")), 0);
    assert!(matches!(done(step), Ok(Reply::Block(_))));
    assert!(matches!(done(client.get_block_by_hash("0xabc")), Ok(Reply::Block(_))));
    sent(client.get_block_by_hash("0xabd"));
    sent(client.get_block_by_number(16));
}

#[test]
fn the_head_is_never_cached() {
    let mut client = client();
    let pending = sent(client.get_latest_block_number());
    assert_eq!(pending.request().method, "eth_blockNumber");
    let step = client.advance(pending, Ok(text("0x10")), 0);
    assert_eq!(done(step), Ok(Reply::BlockNumber(16)));
    let again = sent(client.get_latest_block_number());
    let step = client.advance(again, Ok(text("0x11")), 0);
    assert_eq!(done(step), Ok(Reply::BlockNumber(17)));
}

#[test]
fn a_transaction_takes_two_calls() {
    let mut client = client();
    let pending = sent(client.get_transaction("0xdef"));
    assert_eq!(pending.request().method, "eth_getTransactionByHash");
    let tx = object(vec![("value", text("0x7")), ("gas", text("0x5208"))]);
    let pending = sent(client.advance(pending, Ok(tx), 0));
    assert_eq!(pending.request().method, "eth_getTransactionReceipt");
    assert_eq!(pending.attempts_made(), 0);
    let receipt = object(vec![("gasUsed", text("0x5208")), ("status", text("0x1"))]);
    let reply = done(client.advance(pending, Ok(receipt), 0));
    let first = match reply {
        Ok(Reply::Transaction(t)) => t,
        other => panic!("no transaction: {:?}", other),
    };
    assert_eq!(first.value, U256::from_u64(7));
    assert_eq!(first.gas_used, Some(U256::from_u64(21000)));
    assert_eq!(first.status, Some(U256::from_u64(1)));
    match done(client.get_transaction("0xdef")) {
        Ok(Reply::Transaction(t)) => assert_eq!(t, first),
        other => panic!("no transaction: {:?}", other),
    }
}

#[test]
fn a_pending_transaction_is_an_answer() {
    let mut client = client();
    let pending = sent(client.get_transaction("0xdef"));
    let pending = sent(client.advance(pending, Ok(object(vec![("value", text("0x7"))])), 0));
    match done(client.advance(pending, Ok(Json::Null), 0)) {
        Ok(Reply::Transaction(t)) => {
            assert_eq!(t.gas_used, None);
            assert_eq!(t.status, None);
            assert_eq!(t.value, U256::from_u64(7));
        }
        other => panic!("no transaction: {:?}", other),
    }
}

#[test]
fn an_account_takes_three_calls() {
    let mut client = client();
    let address = format!("0x{}", "cd".repeat(20));
    let pending = sent(client.get_account_balance(&address, Some(16)));
    assert_eq!(pending.request().method, "eth_getBalance");
    let pending = sent(client.advance(pending, Ok(text("0x64")), 0));
    assert_eq!(pending.request().method, "eth_getTransactionCount");
    let pending = sent(client.advance(pending, Ok(text("0x2")), 0));
    assert_eq!(pending.request().method, "eth_getCode");
    let first = match done(client.advance(pending, Ok(text("0x6080")), 0)) {
        Ok(Reply::Account(a)) => a,
        other => panic!("no account: {:?}", other),
    };
    assert_eq!(first.balance, U256::from_u64(100));
    assert_eq!(first.nonce, U256::from_u64(2));
    assert_eq!(first.code_size, U256::from_u64(2));
    match done(client.get_account_balance(&address, Some(16))) {
        Ok(Reply::Account(a)) => assert_eq!(a, first),
        other => panic!("no account: {:?}", other),
    }
    sent(client.get_account_balance(&address, Some(17)));
    sent(client.get_account_balance(&address, None));
}

#[test]
fn a_response_of_the_wrong_shape_is_a_decode_error() {
    let mut client = client();
    let pending = sent(client.get_block_by_number(16));
    let step = client.advance(pending, Ok(text("0x10")), 0);
    assert_eq!(done(step), Err(ClientError::Decode(DecodeError::InvalidBlock)));
    sent(client.get_block_by_number(16));
    let pending = sent(client.get_latest_block_number());
    let step = client.advance(pending, Ok(Json::Null), 0);
    assert_eq!(done(step), Err(ClientError::Decode(DecodeError::InvalidBlockNumber)));
    let pending = sent(client.get_account_balance("0x12", None));
    let pending = sent(client.advance(pending, Ok(text("0x1")), 0));
    let pending = sent(client.advance(pending, Ok(text("0x1")), 0));
    let step = client.advance(pending, Ok(text("0x")), 0);
    assert_eq!(done(step), Err(ClientError::Decode(DecodeError::InvalidAddress)));
}

#[test]
fn a_failure_is_retried_within_the_budget() {
    let mut client = client();
    let pending = sent(client.get_block_by_number(16));
    let (pending, wait) = match client.advance(pending, Err("timeout".to_string()), 0) {
        Step::Wait(pending, wait) => (pending, wait),
        _ => panic!("no retry"),
    };
    assert!(wait > 0 && wait <= 30_000_000_000);
    assert_eq!(pending.attempts_made(), 1);
    assert_eq!(pending.request().method, "eth_getBlockByNumber");
    let (pending, _) = match client.advance(pending, Err("timeout".to_string()), wait) {
        Step::Wait(pending, wait) => (pending, wait),
        _ => panic!("no retry"),
    };
    assert_eq!(pending.attempts_made(), 2);
    let step = client.advance(pending, Ok(block_payload("0x10", "0x1")), 2_000_000_000);
    assert!(matches!(done(step), Ok(Reply::Block(_))));
}

#[test]
fn a_failure_past_the_budget_is_final() {
    let mut client = client();
    let pending = sent(client.get_block_by_number(16));
    let step = client.advance(pending, Err("reset".to_string()), 30_000_000_001);
    assert_eq!(done(step), Err(ClientError::Fetch("reset".to_string())));
    sent(client.get_block_by_number(16));
}

#[test]
fn two_failures_then_a_success_are_three_attempts() {
    let mut policy = RetryPolicy::new();
    assert_eq!(policy.attempts(), 0);
    let first: RetryStep<u32, &str> = policy.next(Err("one"), 0);
    assert!(matches!(first, RetryStep::Wait(_)));
    let second: RetryStep<u32, &str> = policy.next(Err("two"), 1_000_000_000);
    assert!(matches!(second, RetryStep::Wait(_)));
    let third: RetryStep<u32, &str> = policy.next(Ok(7), 2_000_000_000);
    assert!(matches!(third, RetryStep::Done(Ok(7))));
    assert_eq!(policy.attempts(), 3);
}

#[test]
fn a_spent_budget_ends_the_retries() {
    let mut policy = RetryPolicy::with_budget(0);
    let step: RetryStep<u32, &str> = policy.next(Err("down"), 0);
    assert!(matches!(step, RetryStep::Done(Err("down"))));
    assert_eq!(policy.attempts(), 1);
    let mut policy = RetryPolicy::new();
    let step: RetryStep<u32, &str> = policy.next(Err("down"), 30_000_000_001);
    assert!(matches!(step, RetryStep::Done(Err("down"))));
    let mut policy = RetryPolicy::with_budget(1);
    let step: RetryStep<u32, &str> = policy.next(Err("late"), 999_999_999);
    assert!(matches!(step, RetryStep::Done(Err("late"))));
}

#[test]
fn the_decision_keeps_every_wait_within_the_budget() {
    assert_eq!(decide(0, 30, Some(10)), RetryDecision::RetryAfter(10));
    assert_eq!(decide(20, 30, Some(10)), RetryDecision::RetryAfter(10));
    assert_eq!(decide(21, 30, Some(10)), RetryDecision::GiveUp);
    assert_eq!(decide(31, 30, Some(0)), RetryDecision::GiveUp);
    assert_eq!(decide(30, 30, Some(0)), RetryDecision::RetryAfter(0));
    assert_eq!(decide(0, 30, None), RetryDecision::GiveUp);
    assert_eq!(decide(u128::MAX, u128::MAX, Some(1)), RetryDecision::GiveUp);
}

#[test]
fn a_lookup_settles_hit_or_miss() {
    let hit = on_lookup(Query::BlockByNumber(1), Some(block_payload("0x1", "0x2")));
    assert!(matches!(done(hit), Ok(Reply::Block(_))));
    sent(on_lookup(Query::BlockByNumber(1), None));
    sent(on_lookup(Query::BlockByNumber(1), Some(Json::Null)));
    sent(on_lookup(Query::Transaction("0x1".to_string()), Some(object(vec![]))));
    sent(on_lookup(
        Query::Transaction("0x1".to_string()),
        Some(Json::Array(vec![object(vec![])])),
    ));
    let pair = Json::Array(vec![object(vec![]), Json::Null]);
    assert!(matches!(
        done(on_lookup(Query::Transaction("0x1".to_string()), Some(pair))),
        Ok(Reply::Transaction(_))
    ));
}

#[test]
fn the_cache_hands_back_what_was_stored() {
    let mut cache = ResponseCache::new();
    assert_eq!(cache.get("block_1").map(|j| j.is_obj()), None);
    cache.put("block_1".to_string(), block_payload("0x1", "0x2"));
    let found = cache.get("block_1").unwrap();
    assert_eq!(found.get_str("gasUsed"), Some("0x2"));
    cache.put("block_1".to_string(), block_payload("0x1", "0x3"));
    assert_eq!(cache.get("block_1").unwrap().get_str("gasUsed"), Some("0x3"));
    assert!(cache.get("block_2").is_none());
}

#[test]
fn an_entry_past_its_time_to_live_is_a_miss() {
    let mut cache = ResponseCache::with_limits(10, 1);
    cache.put("block_1".to_string(), block_payload("0x1", "0x2"));
    assert!(cache.get("block_1").is_some());
    let began = std::time::Instant::now();
    while began.elapsed() < std::time::Duration::from_millis(1200) {
        std::hint::spin_loop();
    }
    let found = cache.get("block_1");
    assert!(found.is_none());
    sent(on_lookup(Query::BlockByNumber(1), found));
}

#[test]
fn errors_have_words() {
    assert_eq!(
        ClientError::Connection("refused".to_string()).message(),
        "Failed to connect to Reth node: refused"
    );
    assert_eq!(
        ClientError::Fetch("RPC call failed: timeout".to_string()).message(),
        "RPC call failed: timeout"
    );
    assert_eq!(ClientError::NoData.message(), "No blocks found for gas statistics");
    assert_eq!(ClientError::Decode(DecodeError::InvalidBlock).message(), "Invalid block format");
    assert_eq!(DecodeError::InvalidTransaction.message(), "Invalid transaction format");
    assert_eq!(DecodeError::InvalidAddress.message(), "Invalid address format");
    assert_eq!(DecodeError::InvalidBalance.message(), "Failed to parse balance");
    assert_eq!(DecodeError::InvalidNonce.message(), "Failed to parse nonce");
    assert_eq!(DecodeError::InvalidCode.message(), "Failed to parse code");
    assert_eq!(DecodeError::InvalidBlockNumber.message(), "Failed to parse block number");
}
