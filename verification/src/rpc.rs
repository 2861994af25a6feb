//! The client: the one gateway to the node, which answers every query
//! from the cache where it can and from the network where it must.
//!
//! The client does not touch the network. It hands out a `Step`: a call
//! to make, a wait before the call is made again, or the answer. The
//! caller makes the call, measures the time, sleeps, and reports back
//! through `advance`.

use vstd::prelude::*;
use crate::json::{Json, JsonTree, trees, lemma_tree_of};
use crate::cache::{ResponseCache, CACHE_CAPACITY, CACHE_TTL_SECS};
use crate::retry::{RetryPolicy, RetryStep, RETRY_BUDGET_SECS, NANOS_PER_SEC};
use crate::decode::{DecodeError, decode_message};
use crate::text::{push_str, string_of};
use crate::query::{
    Query, Reply, ReplyView, RpcRequest, calls_needed, request_of, cache_key_of, reply_of,
    decode_reply,
};

verus! {

/// The seconds after which the transport gives one request up.
pub const REQUEST_TIMEOUT_SECS: u64 = 60;

/// Why a query has no answer.
#[derive(Debug, Clone, PartialEq, Eq)]
pub enum ClientError {
    /// The endpoint did not answer the probe at start-up; the text is the
    /// transport's.
    Connection(String),
    /// A call failed until its retry budget was spent; the text is that of
    /// the last failure.
    Fetch(String),
    /// A response had the wrong shape.
    Decode(DecodeError),
    /// No block of the window could be analysed.
    NoData,
}

/// The words for a client error. A failed call speaks for itself.
pub open spec fn client_message(error: ClientError) -> Seq<char> {
    match error {
        ClientError::Connection(cause) => "Failed to connect to Reth node: "@ + cause@,
        ClientError::Fetch(cause) => cause@,
        ClientError::Decode(e) => decode_message(e),
        ClientError::NoData => "No blocks found for gas statistics"@,
    }
}

impl ClientError {
    /// The error in words.
    pub fn message(&self) -> (r: String)
        ensures
            r@ == client_message(*self),
    {
        match self {
            ClientError::Connection(cause) => {
                let mut out: Vec<char> = Vec::new();
                push_str(&mut out, "Failed to connect to Reth node: ");
                push_str(&mut out, cause.as_str());
                string_of(&out)
            },
            ClientError::Fetch(cause) => cause.clone(),
            ClientError::Decode(e) => e.message().to_owned(),
            ClientError::NoData => "No blocks found for gas statistics".to_owned(),
        }
    }
}

/// The payload `payload` holds the responses `responses` of a query: the
/// one response itself, or an array of them where there are several.
pub open spec fn is_packed(query: Query, responses: Seq<JsonTree>, payload: JsonTree) -> bool {
    if calls_needed(query) == 1 {
        payload == responses[0]
    } else {
        payload.items() == Some(responses)
    }
}

/// The responses that a cached payload holds for a query, where it holds
/// as many as the query takes.
pub open spec fn unpacked(query: Query, payload: JsonTree) -> Option<Seq<JsonTree>> {
    if calls_needed(query) == 1 {
        Some(seq![payload])
    } else {
        match payload.items() {
            Some(items) => if items.len() == calls_needed(query) {
                Some(items)
            } else {
                None
            },
            None => None,
        }
    }
}

/// What a cache lookup settles.
pub enum Lookup {
    /// The cache answers the query with this reply.
    Hit(ReplyView),
    /// The network has to be asked.
    Miss,
}

/// What a lookup that found `found` settles for a query: a hit where the
/// payload found holds responses that denote a reply, a miss otherwise.
pub open spec fn lookup_outcome(query: Query, found: Option<JsonTree>) -> Lookup {
    match found {
        Some(payload) => match unpacked(query, payload) {
            Some(responses) => match reply_of(query, responses) {
                Ok(reply) => Lookup::Hit(reply),
                Err(_) => Lookup::Miss,
            },
            None => Lookup::Miss,
        },
        None => Lookup::Miss,
    }
}

/// A query under way: the responses gathered so far and the retry state
/// of the call that is due.
pub struct Pending {
    query: Query,
    responses: Vec<Json>,
    retry: RetryPolicy,
}

impl Pending {
    #[verifier::type_invariant]
    closed spec fn well_formed(self) -> bool {
        self.responses@.len() < calls_needed(self.query)
    }

    pub closed spec fn query(self) -> Query {
        self.query
    }

    /// The responses gathered so far.
    pub closed spec fn responses(self) -> Seq<JsonTree> {
        trees(self.responses@)
    }

    /// How many attempts of the call that is due have been reported.
    pub closed spec fn attempts(self) -> u64 {
        self.retry.attempts_made()
    }

    /// The retry budget of the call that is due, in nanoseconds.
    pub closed spec fn budget(self) -> u128 {
        self.retry.budget_nanos()
    }

    /// The request of the call that is due.
    pub fn request(&self) -> (r: RpcRequest)
        ensures
            r@ == request_of(self.query(), self.responses().len()),
    {
        self.query.request(self.responses.len())
    }

    /// How many attempts of the call that is due have been reported.
    pub fn attempts_made(&self) -> (n: u64)
        ensures
            n == self.attempts(),
    {
        self.retry.attempts()
    }
}

/// What the caller does next.
pub enum Step {
    /// Start the clock and make the call `request()` of the pending
    /// query.
    Send(Pending),
    /// Sleep for so many nanoseconds, then make the same call again.
    Wait(Pending, u128),
    /// The query is over.
    Done(Result<Reply, ClientError>),
}

/// The step is the first call of `query`, with a fresh retry budget.
pub open spec fn is_first_call(step: Step, query: Query) -> bool {
    is_fresh_call(step, query, Seq::empty())
}

/// The step is a new call of `query` after the responses `responses`,
/// with a fresh retry budget.
pub open spec fn is_fresh_call(step: Step, query: Query, responses: Seq<JsonTree>) -> bool {
    match step {
        Step::Send(pending) => {
            &&& pending.query() == query
            &&& pending.responses() == responses
            &&& pending.attempts() == 0
            &&& pending.budget() == RETRY_BUDGET_SECS * NANOS_PER_SEC
        },
        _ => false,
    }
}

/// The step ends the query with the reply `reply`.
pub open spec fn is_answer(step: Step, reply: ReplyView) -> bool {
    match step {
        Step::Done(Ok(r)) => r@ == reply,
        _ => false,
    }
}

/// The step ends the query with the error `error`.
pub open spec fn is_failure(step: Step, error: ClientError) -> bool {
    match step {
        Step::Done(Err(e)) => e == error,
        _ => false,
    }
}

/// The step is a wait of `before`'s call, which stays within its budget
/// when it begins `elapsed` nanoseconds into the call.
pub open spec fn is_retry(step: Step, before: Pending, elapsed: u128) -> bool {
    match step {
        Step::Wait(pending, wait) => {
            &&& pending.query() == before.query()
            &&& pending.responses() == before.responses()
            &&& pending.budget() == before.budget()
            &&& pending.attempts() > 0
            &&& elapsed + wait <= before.budget()
        },
        _ => false,
    }
}

/// The step that a lookup settles: the reply on a hit, the first call on
/// a miss.
pub open spec fn follows_lookup(step: Step, query: Query, found: Option<JsonTree>) -> bool {
    match lookup_outcome(query, found) {
        Lookup::Hit(reply) => is_answer(step, reply),
        Lookup::Miss => is_first_call(step, query),
    }
}

/// The step begins `query` at a client whose cache stored `stored`: it is
/// the reply that the payload stored under the query's fingerprint
/// denotes, or it is the query's first call.
pub open spec fn begins(step: Step, query: Query, stored: Map<Seq<char>, JsonTree>) -> bool {
    &&& step is Done ==> cache_key_of(query) is Some && stored.contains_key(cache_key_of(query)->0)
        && follows_lookup(step, query, Some(stored[cache_key_of(query)->0]))
    &&& !(step is Done) ==> is_first_call(step, query)
}

/// What the cache stores once the responses `responses` of a query have
/// arrived: nothing while calls are left, nothing where they denote no
/// reply or the query has no fingerprint, and else a payload that holds
/// them, under the query's fingerprint.
pub open spec fn stores(
    before: Map<Seq<char>, JsonTree>,
    after: Map<Seq<char>, JsonTree>,
    query: Query,
    responses: Seq<JsonTree>,
) -> bool {
    if responses.len() == calls_needed(query) && reply_of(query, responses) is Ok && cache_key_of(
        query,
    ) is Some {
        let key = cache_key_of(query)->0;
        after.contains_key(key) && is_packed(query, responses, after[key]) && after
            == before.insert(key, after[key])
    } else {
        after == before
    }
}

/// The step after a response `response` to the call of `before`: the
/// next call while calls are left, and else the reply that all responses
/// denote, or the reason why they denote none.
pub open spec fn follows_response(step: Step, before: Pending, response: JsonTree) -> bool {
    let query = before.query();
    let responses = before.responses().push(response);
    if responses.len() < calls_needed(query) {
        is_fresh_call(step, query, responses)
    } else {
        match reply_of(query, responses) {
            Ok(reply) => is_answer(step, reply),
            Err(e) => is_failure(step, ClientError::Decode(e)),
        }
    }
}

/// The step after a failure `message` of the call of `before`: a wait
/// within the budget, or the failure itself; the failure for sure once
/// the budget is spent.
pub open spec fn follows_failure(step: Step, before: Pending, message: String, elapsed: u128) -> bool {
    &&& is_retry(step, before, elapsed) || is_failure(step, ClientError::Fetch(message))
    &&& elapsed > before.budget() ==> is_failure(step, ClientError::Fetch(message))
}

/// A payload that holds the responses of a query, as the cache stores it.
fn pack(query: &Query, responses: Vec<Json>) -> (payload: Json)
    requires
        responses.len() == calls_needed(*query),
    ensures
        is_packed(*query, trees(responses@), payload@),
{
    let mut responses = responses;
    if query.calls() == 1 {
        match responses.pop() {
            Some(only) => only,
            None => Json::Null,
        }
    } else {
        let payload = Json::Array(responses);
        proof {
            lemma_tree_of(payload);
        }
        payload
    }
}

/// The responses that a cached payload holds.
fn unpack(query: &Query, payload: Json) -> (r: Option<Vec<Json>>)
    ensures
        r is Some == unpacked(*query, payload@) is Some,
        r matches Some(responses) ==> unpacked(*query, payload@) == Some(trees(responses@)),
        r matches Some(responses) ==> responses.len() == calls_needed(*query),
{
    if query.calls() == 1 {
        let mut responses: Vec<Json> = Vec::new();
        responses.push(payload);
        assert(trees(responses@) =~= seq![payload@]);
        Some(responses)
    } else {
        proof {
            lemma_tree_of(payload);
        }
        match payload {
            Json::Array(items) => {
                if items.len() == query.calls() {
                    Some(items)
                } else {
                    None
                }
            },
            _ => None,
        }
    }
}

/// A payload that holds the responses of a query holds exactly them.
pub proof fn lemma_unpack_packed(query: Query, responses: Seq<JsonTree>, payload: JsonTree)
    requires
        responses.len() == calls_needed(query),
        is_packed(query, responses, payload),
    ensures
        unpacked(query, payload) == Some(responses),
{
    if calls_needed(query) == 1 {
        assert(seq![payload] =~= responses);
    }
}

/// The cache-hit law: when the responses of a query denoted a reply, a
/// later lookup that finds their payload settles the same reply, and no
/// call.
pub proof fn lemma_stored_answer_is_a_hit(
    query: Query,
    responses: Seq<JsonTree>,
    payload: JsonTree,
)
    requires
        responses.len() == calls_needed(query),
        reply_of(query, responses) is Ok,
        is_packed(query, responses, payload),
    ensures
        lookup_outcome(query, Some(payload)) == Lookup::Hit(reply_of(query, responses)->Ok_0),
{
    lemma_unpack_packed(query, responses, payload);
}

/// The same law for two queries in a row: once the responses of a query
/// have arrived and the cache has stored them, the same query asked again
/// is answered with the same reply and without a call, provided the cache
/// still hands out what it stored.
pub proof fn lemma_second_query_makes_no_call(
    query: Query,
    responses: Seq<JsonTree>,
    before: Map<Seq<char>, JsonTree>,
    after: Map<Seq<char>, JsonTree>,
    second: Step,
)
    requires
        responses.len() == calls_needed(query),
        reply_of(query, responses) is Ok,
        cache_key_of(query) is Some,
        stores(before, after, query, responses),
        follows_lookup(second, query, Some(after[cache_key_of(query)->0])),
    ensures
        second is Done,
        is_answer(second, reply_of(query, responses)->Ok_0),
{
    lemma_stored_answer_is_a_hit(query, responses, after[cache_key_of(query)->0]);
}

/// The miss law: a lookup that finds nothing, as after an entry's time to
/// live, settles a call to the network.
pub proof fn lemma_miss_calls(query: Query, step: Step)
    requires
        follows_lookup(step, query, None),
    ensures
        step is Send,
        step->Send_0.responses().len() == 0,
{
}

/// The tree of what a lookup found.
pub open spec fn found_tree(found: Option<Json>) -> Option<JsonTree> {
    match found {
        Some(payload) => Some(payload@),
        None => None,
    }
}

/// Settles a query on what a cache lookup found.
pub fn on_lookup(query: Query, found: Option<Json>) -> (step: Step)
    ensures
        follows_lookup(step, query, found_tree(found)),
{
    match found {
        Some(payload) => match unpack(&query, payload) {
            Some(responses) => match decode_reply(&query, &responses) {
                Ok(reply) => {
                    return Step::Done(Ok(reply));
                },
                Err(_) => {},
            },
            None => {},
        },
        None => {},
    }
    let responses: Vec<Json> = Vec::new();
    assert(trees(responses@) =~= Seq::<JsonTree>::empty());
    Step::Send(Pending { query, responses, retry: RetryPolicy::new() })
}

/// The client of one node.
pub struct RethClient {
    cache: ResponseCache,
    rpc_url: String,
}

/// The request that probes the endpoint at start-up.
pub fn probe_request() -> (r: RpcRequest)
    ensures
        r.method@ == "eth_chainId"@,
        r.params@.len() == 0,
        r.expects_text,
{
    RpcRequest { method: "eth_chainId".to_owned(), params: Vec::new(), expects_text: true }
}

impl RethClient {
    /// For each fingerprint, the payload last stored under it.
    pub closed spec fn stored(&self) -> Map<Seq<char>, JsonTree> {
        self.cache.stored()
    }

    /// The endpoint's address.
    pub closed spec fn url(&self) -> Seq<char> {
        self.rpc_url@
    }

    /// The cache holds `CACHE_CAPACITY` entries at most, for
    /// `CACHE_TTL_SECS` seconds each.
    pub closed spec fn cache_is_bounded(&self) -> bool {
        self.cache.capacity() == CACHE_CAPACITY && self.cache.time_to_live() == CACHE_TTL_SECS
    }

    /// The client of the endpoint `rpc_url`, given the outcome of the
    /// probe: there is a client exactly where the probe succeeded, and a
    /// failed probe is not tried again.
    pub fn new(rpc_url: &str, probe: Result<String, String>) -> (r: Result<RethClient, ClientError>)
        ensures
            r is Ok == probe is Ok,
            r matches Ok(client) ==> client.url() == rpc_url@ && client.stored().dom().len() == 0
                && client.cache_is_bounded(),
            r matches Err(e) ==> e == ClientError::Connection(probe->Err_0),
    {
        match probe {
            Ok(_) => {
                let cache = ResponseCache::new();
                Ok(RethClient { cache, rpc_url: rpc_url.to_owned() })
            },
            Err(message) => Err(ClientError::Connection(message)),
        }
    }

    /// The endpoint's address.
    pub fn rpc_url(&self) -> (s: &str)
        ensures
            s@ == self.url(),
    {
        self.rpc_url.as_str()
    }

    /// Begins a query: it ends at once with the reply, where the cache
    /// holds a payload under the query's fingerprint that denotes one; it
    /// begins with the query's first call otherwise. The height of the
    /// head has no fingerprint, so it always takes a call.
    pub fn start(&self, query: Query) -> (step: Step)
        ensures
            begins(step, query, self.stored()),
    {
        let found = match query.cache_key() {
            Some(key) => self.cache.get(key.as_str()),
            None => None,
        };
        on_lookup(query, found)
    }

    /// Takes the outcome of the call that was due, made `elapsed`
    /// nanoseconds after the call's first attempt began. A failure is
    /// retried within the budget and surfaces after it. A response is
    /// followed by the query's next call, or ends the query: with the
    /// reply, which the cache then holds, or with a decode error.
    pub fn advance(&mut self, pending: Pending, outcome: Result<Json, String>, elapsed: u128) -> (step:
        Step)
        ensures
            outcome matches Ok(response) ==> follows_response(step, pending, response@) && stores(
                old(self).stored(),
                final(self).stored(),
                pending.query(),
                pending.responses().push(response@),
            ),
            outcome matches Err(message) ==> follows_failure(step, pending, message, elapsed)
                && final(self).stored() == old(self).stored(),
            final(self).url() == old(self).url(),
            final(self).cache_is_bounded() == old(self).cache_is_bounded(),
    {
        proof {
            use_type_invariant(&pending);
        }
        let Pending { query, responses, retry } = pending;
        let mut responses = responses;
        let mut retry = retry;
        match retry.next(outcome, elapsed) {
            RetryStep::Wait(wait) => Step::Wait(Pending { query, responses, retry }, wait),
            RetryStep::Done(Err(message)) => Step::Done(Err(ClientError::Fetch(message))),
            RetryStep::Done(Ok(response)) => {
                let ghost before = trees(responses@);
                responses.push(response);
                assert(trees(responses@) =~= before.push(response@));
                if responses.len() < query.calls() {
                    Step::Send(Pending { query, responses, retry: RetryPolicy::new() })
                } else {
                    match decode_reply(&query, &responses) {
                        Ok(reply) => {
                            match query.cache_key() {
                                Some(key) => {
                                    let payload = pack(&query, responses);
                                    self.cache.put(key, payload);
                                },
                                None => {},
                            }
                            Step::Done(Ok(reply))
                        },
                        Err(e) => Step::Done(Err(ClientError::Decode(e))),
                    }
                }
            },
        }
    }

    /// Begins the query for the block of height `block_number`.
    pub fn get_block_by_number(&self, block_number: u64) -> (step: Step)
        ensures
            begins(step, Query::BlockByNumber(block_number), self.stored()),
    {
        self.start(Query::BlockByNumber(block_number))
    }

    /// Begins the query for the block of hash `block_hash`.
    pub fn get_block_by_hash(&self, block_hash: &str) -> (step: Step)
        ensures
            exists|query: Query| #[trigger]
                begins(step, query, self.stored()) && query is BlockByHash
                    && query->BlockByHash_0@ == block_hash@,
    {
        let query = Query::BlockByHash(block_hash.to_owned());
        let step = self.start(query);
        assert(begins(step, query, self.stored()));
        step
    }

    /// Begins the query for the height of the chain's head, which always
    /// takes a call.
    pub fn get_latest_block_number(&self) -> (step: Step)
        ensures
            is_first_call(step, Query::LatestBlockNumber),
    {
        self.start(Query::LatestBlockNumber)
    }

    /// Begins the query for the transaction of hash `tx_hash`.
    pub fn get_transaction(&self, tx_hash: &str) -> (step: Step)
        ensures
            exists|query: Query| #[trigger]
                begins(step, query, self.stored()) && query is Transaction
                    && query->Transaction_0@ == tx_hash@,
    {
        let query = Query::Transaction(tx_hash.to_owned());
        let step = self.start(query);
        assert(begins(step, query, self.stored()));
        step
    }

    /// Begins the query for the account at `address`, at the height
    /// `block` or at the head.
    pub fn get_account_balance(&self, address: &str, block: Option<u64>) -> (step: Step)
        ensures
            exists|query: Query| #[trigger]
                begins(step, query, self.stored()) && query is AccountBalance
                    && query->address@ == address@ && query->block == block,
    {
        let query = Query::AccountBalance { address: address.to_owned(), block };
        let step = self.start(query);
        assert(begins(step, query, self.stored()));
        step
    }
}

} // verus!
