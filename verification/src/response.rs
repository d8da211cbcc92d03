//! Interpretation of the gateway's JSON responses.
//!
//! Every response the pipeline reads is classified here: block height and
//! account state lookups, simulate results, broadcast acceptance, commit-log
//! extraction of code ids and contract addresses, and the "not found yet"
//! sentinel of confirmation polling.

use vstd::prelude::*;

verus! {

use crate::errors::ClientError;
use crate::json::{JsonValue, obj_get, spec_as_str, spec_as_u64, spec_as_arr, str_eq};
use crate::numeric::{spec_parse_u64, parse_u64};

/// Two chained field lookups.
pub open spec fn obj_get2(v: JsonValue, k1: Seq<char>, k2: Seq<char>) -> Option<JsonValue> {
    match obj_get(v, k1) {
        Some(x) => obj_get(x, k2),
        None => None,
    }
}

/// Three chained field lookups.
pub open spec fn obj_get3(v: JsonValue, k1: Seq<char>, k2: Seq<char>, k3: Seq<char>) -> Option<
    JsonValue,
> {
    match obj_get2(v, k1, k2) {
        Some(x) => obj_get(x, k3),
        None => None,
    }
}

/// The string content of a field, when the field exists and is a string.
pub open spec fn str_field(v: JsonValue, k: Seq<char>) -> Option<Seq<char>> {
    match obj_get(v, k) {
        Some(x) => spec_as_str(x),
        None => None,
    }
}

/// The numeric content of a field, when the field exists and is a number.
pub open spec fn u64_field(v: JsonValue, k: Seq<char>) -> Option<u64> {
    match obj_get(v, k) {
        Some(x) => spec_as_u64(x),
        None => None,
    }
}

/// The current block height carried by a latest-block response, at
/// `block.header.height`, as a digit string.
pub open spec fn spec_block_height(v: JsonValue) -> Option<u64> {
    match obj_get3(v, "block"@, "header"@, "height"@) {
        Some(h) => match spec_as_str(h) {
            Some(s) => spec_parse_u64(s),
            None => None,
        },
        None => None,
    }
}

/// The account number carried by an account lookup response.
pub open spec fn spec_account_number(v: JsonValue) -> Option<u64> {
    match obj_get2(v, "account"@, "account_number"@) {
        Some(x) => match spec_as_str(x) {
            Some(s) => spec_parse_u64(s),
            None => None,
        },
        None => None,
    }
}

/// The sequence number carried by an account lookup response.
pub open spec fn spec_sequence(v: JsonValue) -> Option<u64> {
    match obj_get2(v, "account"@, "sequence"@) {
        Some(x) => match spec_as_str(x) {
            Some(s) => spec_parse_u64(s),
            None => None,
        },
        None => None,
    }
}

/// The consumed gas reported by a simulate response, at
/// `gas_info.gas_used`, as a digit string.
pub open spec fn spec_gas_used(v: JsonValue) -> Option<u64> {
    match obj_get2(v, "gas_info"@, "gas_used"@) {
        Some(x) => match spec_as_str(x) {
            Some(s) => spec_parse_u64(s),
            None => None,
        },
        None => None,
    }
}

/// The numeric result code of a broadcast response.
pub open spec fn spec_broadcast_code(v: JsonValue) -> Option<u64> {
    match obj_get(v, "tx_response"@) {
        Some(x) => u64_field(x, "code"@),
        None => None,
    }
}

/// The transaction hash of a broadcast response.
pub open spec fn spec_txhash(v: JsonValue) -> Option<Seq<char>> {
    match obj_get(v, "tx_response"@) {
        Some(x) => str_field(x, "txhash"@),
        None => None,
    }
}

/// The chain's code for "ran out of gas while checking the transaction".
pub open spec fn out_of_gas_code() -> u64 {
    11
}

/// The gateway's code for "transaction not found (yet)".
pub open spec fn not_found_code() -> u64 {
    5
}

fn get_str_field<'a>(v: &'a JsonValue, k: &str) -> (res: Option<&'a String>)
    ensures
        match res {
            Some(s) => str_field(*v, k@) == Some(s@),
            None => str_field(*v, k@) is None,
        },
{
    match v.get(k) {
        Some(x) => x.as_str(),
        None => None,
    }
}

/// Read the current block height out of a latest-block response.
pub fn parse_block_height(v: &JsonValue) -> (res: Result<u64, ClientError>)
    ensures
        match res {
            Ok(h) => spec_block_height(*v) == Some(h),
            Err(e) => spec_block_height(*v) is None && e == ClientError::ParseError,
        },
{
    let b = match v.get("block") {
        Some(x) => x,
        None => { return Err(ClientError::ParseError) },
    };
    let h = match b.get("header") {
        Some(x) => x,
        None => { return Err(ClientError::ParseError) },
    };
    let f = match h.get("height") {
        Some(x) => x,
        None => { return Err(ClientError::ParseError) },
    };
    let s = match f.as_str() {
        Some(x) => x,
        None => { return Err(ClientError::ParseError) },
    };
    match parse_u64(s.as_str()) {
        Some(n) => Ok(n),
        None => Err(ClientError::ParseError),
    }
}

/// Read the account number and sequence number out of an account lookup
/// response. A response with no `account` object means the account does
/// not exist on chain; a present account whose fields are absent or
/// non-numeric is a schema mismatch.
pub fn parse_account_numbers(v: &JsonValue) -> (res: Result<(u64, u64), ClientError>)
    ensures
        match res {
            Ok(p) => spec_account_number(*v) == Some(p.0) && spec_sequence(*v) == Some(p.1),
            Err(e) => if obj_get(*v, "account"@) is None {
                e == ClientError::AccountNotFound
            } else {
                e == ClientError::ParseError && (spec_account_number(*v) is None
                    || spec_sequence(*v) is None)
            },
        },
{
    let acct = match v.get("account") {
        Some(x) => x,
        None => { return Err(ClientError::AccountNotFound) },
    };
    let a = match get_str_field(acct, "account_number") {
        Some(s) => match parse_u64(s.as_str()) {
            Some(n) => n,
            None => { return Err(ClientError::ParseError) },
        },
        None => { return Err(ClientError::ParseError) },
    };
    let q = match get_str_field(acct, "sequence") {
        Some(s) => match parse_u64(s.as_str()) {
            Some(n) => n,
            None => { return Err(ClientError::ParseError) },
        },
        None => { return Err(ClientError::ParseError) },
    };
    Ok((a, q))
}

/// Read the consumed gas out of a simulate response.
pub fn parse_gas_used(v: &JsonValue) -> (res: Result<u64, ClientError>)
    ensures
        match res {
            Ok(g) => spec_gas_used(*v) == Some(g),
            Err(e) => spec_gas_used(*v) is None && e == ClientError::SimulationError,
        },
{
    let gi = match v.get("gas_info") {
        Some(x) => x,
        None => { return Err(ClientError::SimulationError) },
    };
    let s = match get_str_field(gi, "gas_used") {
        Some(x) => x,
        None => { return Err(ClientError::SimulationError) },
    };
    match parse_u64(s.as_str()) {
        Some(n) => Ok(n),
        None => Err(ClientError::SimulationError),
    }
}

/// Classify the synchronous broadcast response: the chain's out-of-gas
/// code is surfaced as `InsufficientGas`, any other accepted response must
/// carry the transaction hash.
pub fn classify_broadcast(v: &JsonValue) -> (res: Result<String, ClientError>)
    ensures
        match res {
            Ok(h) => spec_broadcast_code(*v) != Some(out_of_gas_code()) && spec_txhash(*v)
                == Some(h@),
            Err(e) => if spec_broadcast_code(*v) == Some(out_of_gas_code()) {
                e == ClientError::InsufficientGas
            } else {
                e == ClientError::BroadcastParseError && spec_txhash(*v) is None
            },
        },
{
    let tx = match v.get("tx_response") {
        Some(x) => x,
        None => { return Err(ClientError::BroadcastParseError) },
    };
    let code = match tx.get("code") {
        Some(x) => x.as_u64(),
        None => None,
    };
    match code {
        Some(c) if c == 11 => { return Err(ClientError::InsufficientGas) },
        _ => {},
    }
    match get_str_field(tx, "txhash") {
        Some(h) => Ok(h.clone()),
        None => Err(ClientError::BroadcastParseError),
    }
}

/// Whether an event object carries the given `type` tag.
pub open spec fn spec_event_type_is(e: JsonValue, t: Seq<char>) -> bool {
    str_field(e, "type"@) == Some(t)
}

/// First event of the given type in an event list.
pub open spec fn find_event(events: Seq<JsonValue>, t: Seq<char>) -> Option<JsonValue>
    decreases events.len(),
{
    if events.len() == 0 {
        None
    } else if spec_event_type_is(events[0], t) {
        Some(events[0])
    } else {
        find_event(events.drop_first(), t)
    }
}

/// First event of the given type found by walking each log's `events`
/// array in order; a log without a well-formed `events` array is skipped.
pub open spec fn find_event_in_logs(logs: Seq<JsonValue>, t: Seq<char>) -> Option<JsonValue>
    decreases logs.len(),
{
    if logs.len() == 0 {
        None
    } else {
        let events = match obj_get(logs[0], "events"@) {
            Some(x) => spec_as_arr(x),
            None => None,
        };
        match events {
            Some(ev) => match find_event(ev, t) {
                Some(e) => Some(e),
                None => find_event_in_logs(logs.drop_first(), t),
            },
            None => find_event_in_logs(logs.drop_first(), t),
        }
    }
}

/// First event of the given type in a commit response's logs, at
/// `tx_response.logs[*].events[*]`.
pub open spec fn spec_tx_event(v: JsonValue, t: Seq<char>) -> Option<JsonValue> {
    match obj_get2(v, "tx_response"@, "logs"@) {
        Some(l) => match spec_as_arr(l) {
            Some(logs) => find_event_in_logs(logs, t),
            None => None,
        },
        None => None,
    }
}

/// The string value of the first attribute bound to `key` whose value is
/// a string; an attribute with the right key but a non-string value is
/// passed over.
pub open spec fn find_attr(attrs: Seq<JsonValue>, key: Seq<char>) -> Option<Seq<char>>
    decreases attrs.len(),
{
    if attrs.len() == 0 {
        None
    } else {
        let k = str_field(attrs[0], "key"@);
        let val = str_field(attrs[0], "value"@);
        if k == Some(key) && val is Some {
            val
        } else {
            find_attr(attrs.drop_first(), key)
        }
    }
}

/// The value bound to `key` in an event's `attributes` array.
pub open spec fn spec_event_attr(e: JsonValue, key: Seq<char>) -> Option<Seq<char>> {
    match obj_get(e, "attributes"@) {
        Some(a) => match spec_as_arr(a) {
            Some(attrs) => find_attr(attrs, key),
            None => None,
        },
        None => None,
    }
}

/// The `code_id` attribute of the first `store_code` event in a commit
/// response, as a digit string.
pub open spec fn spec_code_id_attr(v: JsonValue) -> Option<Seq<char>> {
    match spec_tx_event(v, "store_code"@) {
        Some(e) => spec_event_attr(e, "code_id"@),
        None => None,
    }
}

/// The `_contract_address` attribute of the first `instantiate` event in
/// a commit response.
pub open spec fn spec_contract_address(v: JsonValue) -> Option<Seq<char>> {
    match spec_tx_event(v, "instantiate"@) {
        Some(e) => spec_event_attr(e, "_contract_address"@),
        None => None,
    }
}

fn event_type_is(e: &JsonValue, t: &str) -> (r: bool)
    ensures
        r == spec_event_type_is(*e, t@),
{
    match get_str_field(e, "type") {
        Some(s) => str_eq(s.as_str(), t),
        None => false,
    }
}

fn find_event_exec<'a>(events: &'a Vec<JsonValue>, t: &str) -> (res: Option<&'a JsonValue>)
    ensures
        match res {
            Some(e) => find_event(events@, t@) == Some(*e),
            None => find_event(events@, t@) is None,
        },
{
    let n = events.len();
    let mut i: usize = 0;
    proof {
        assert(events@.skip(0) =~= events@);
    }
    while i < n
        invariant
            n == events@.len(),
            0 <= i <= n,
            find_event(events@, t@) == find_event(events@.skip(i as int), t@),
        decreases n - i,
    {
        proof {
            assert(events@.skip(i as int)[0] == events@[i as int]);
            assert(events@.skip(i as int).drop_first() =~= events@.skip(i + 1));
        }
        if event_type_is(&events[i], t) {
            return Some(&events[i]);
        }
        i = i + 1;
    }
    proof {
        assert(events@.skip(n as int).len() == 0);
    }
    None
}

fn find_event_in_logs_exec<'a>(logs: &'a Vec<JsonValue>, t: &str) -> (res: Option<
    &'a JsonValue,
>)
    ensures
        match res {
            Some(e) => find_event_in_logs(logs@, t@) == Some(*e),
            None => find_event_in_logs(logs@, t@) is None,
        },
{
    let n = logs.len();
    let mut i: usize = 0;
    proof {
        assert(logs@.skip(0) =~= logs@);
    }
    while i < n
        invariant
            n == logs@.len(),
            0 <= i <= n,
            find_event_in_logs(logs@, t@) == find_event_in_logs(logs@.skip(i as int), t@),
        decreases n - i,
    {
        proof {
            assert(logs@.skip(i as int)[0] == logs@[i as int]);
            assert(logs@.skip(i as int).drop_first() =~= logs@.skip(i + 1));
        }
        let log = &logs[i];
        let events = match log.get("events") {
            Some(x) => x.as_arr(),
            None => None,
        };
        match events {
            Some(ev) => {
                match find_event_exec(ev, t) {
                    Some(e) => { return Some(e) },
                    None => {},
                }
            },
            None => {},
        }
        i = i + 1;
    }
    proof {
        assert(logs@.skip(n as int).len() == 0);
    }
    None
}

/// Find the first event of the given type in a commit response's logs.
fn tx_event<'a>(v: &'a JsonValue, t: &str) -> (res: Option<&'a JsonValue>)
    ensures
        match res {
            Some(e) => spec_tx_event(*v, t@) == Some(*e),
            None => spec_tx_event(*v, t@) is None,
        },
{
    let tx = match v.get("tx_response") {
        Some(x) => x,
        None => { return None },
    };
    let l = match tx.get("logs") {
        Some(x) => x,
        None => { return None },
    };
    let logs = match l.as_arr() {
        Some(x) => x,
        None => { return None },
    };
    find_event_in_logs_exec(logs, t)
}

fn event_attr<'a>(e: &'a JsonValue, key: &str) -> (res: Option<&'a String>)
    ensures
        match res {
            Some(s) => spec_event_attr(*e, key@) == Some(s@),
            None => spec_event_attr(*e, key@) is None,
        },
{
    let a = match e.get("attributes") {
        Some(x) => x,
        None => { return None },
    };
    let attrs = match a.as_arr() {
        Some(x) => x,
        None => { return None },
    };
    let n = attrs.len();
    let mut i: usize = 0;
    proof {
        assert(attrs@.skip(0) =~= attrs@);
    }
    while i < n
        invariant
            obj_get(*e, "attributes"@) == Some(*a),
            spec_as_arr(*a) == Some(attrs@),
            n == attrs@.len(),
            0 <= i <= n,
            find_attr(attrs@, key@) == find_attr(attrs@.skip(i as int), key@),
        decreases n - i,
    {
        proof {
            assert(attrs@.skip(i as int)[0] == attrs@[i as int]);
            assert(attrs@.skip(i as int).drop_first() =~= attrs@.skip(i + 1));
        }
        let attr = &attrs[i];
        let key_matches = match get_str_field(attr, "key") {
            Some(k) => str_eq(k.as_str(), key),
            None => false,
        };
        if key_matches {
            match get_str_field(attr, "value") {
                Some(val) => { return Some(val) },
                None => {},
            }
        }
        i = i + 1;
    }
    proof {
        assert(attrs@.skip(n as int).len() == 0);
    }
    None
}

/// Extract the code id that a committed store-code transaction was
/// assigned, from the `store_code` event of the commit logs.
///
/// A missing event or attribute is an extraction failure; an attribute
/// whose digit string does not fit `u64` is a schema mismatch.
pub fn parse_code_id(v: &JsonValue) -> (res: Result<u64, ClientError>)
    ensures
        match res {
            Ok(id) => match spec_code_id_attr(*v) {
                Some(s) => spec_parse_u64(s) == Some(id),
                None => false,
            },
            Err(e) => match spec_code_id_attr(*v) {
                Some(s) => e == ClientError::ParseError && spec_parse_u64(s) is None,
                None => e == ClientError::ExtractionError,
            },
        },
{
    let e = match tx_event(v, "store_code") {
        Some(x) => x,
        None => { return Err(ClientError::ExtractionError) },
    };
    let s = match event_attr(e, "code_id") {
        Some(x) => x,
        None => { return Err(ClientError::ExtractionError) },
    };
    match parse_u64(s.as_str()) {
        Some(id) => Ok(id),
        None => Err(ClientError::ParseError),
    }
}

/// Extract the address of a freshly instantiated contract, from the
/// `instantiate` event of the commit logs.
pub fn parse_instantiated_address(v: &JsonValue) -> (res: Result<String, ClientError>)
    ensures
        match res {
            Ok(a) => spec_contract_address(*v) == Some(a@),
            Err(e) => spec_contract_address(*v) is None && e
                == ClientError::ExtractionError,
        },
{
    let e = match tx_event(v, "instantiate") {
        Some(x) => x,
        None => { return Err(ClientError::ExtractionError) },
    };
    match event_attr(e, "_contract_address") {
        Some(a) => Ok(a.clone()),
        None => Err(ClientError::ExtractionError),
    }
}

/// A lookup-by-hash response that still reports the "not found" sentinel.
pub open spec fn spec_tx_not_found(v: JsonValue) -> bool {
    u64_field(v, "code"@) == Some(not_found_code())
}

/// What the confirmation poller does with one lookup response.
#[derive(Clone, Copy, Debug, PartialEq, Eq, Structural)]
pub enum PollDecision {
    /// The response is final: return it to the caller.
    Committed,
    /// The transaction is not in a block yet: sleep and look again.
    NotFoundRetry,
}

/// How long the poller sleeps between lookup attempts, in milliseconds.
pub const POLL_INTERVAL_MS: u64 = 500;

/// Decide whether a lookup-by-hash response is final.
///
/// Only the gateway's "not found" sentinel keeps the poller going; every
/// other response — committed or an unrelated error — is returned as-is.
pub fn poll_step(v: &JsonValue) -> (d: PollDecision)
    ensures
        d is NotFoundRetry <==> spec_tx_not_found(*v),
{
    let code = match v.get("code") {
        Some(x) => x.as_u64(),
        None => None,
    };
    match code {
        Some(c) if c == 5 => PollDecision::NotFoundRetry,
        _ => PollDecision::Committed,
    }
}

/// Index of the first final response in a polling trace.
pub open spec fn first_committed(s: Seq<JsonValue>) -> Option<int>
    decreases s.len(),
{
    if s.len() == 0 {
        None
    } else if !spec_tx_not_found(s[0]) {
        Some(0)
    } else {
        match first_committed(s.drop_first()) {
            Some(i) => Some(i + 1),
            None => None,
        }
    }
}

/// Replay the confirmation poller against a trace of lookup responses.
///
/// Returns the index of the response the poller would return together
/// with the total time it would have slept; the poller makes `index + 1`
/// lookup calls. `None` means every response in the trace still reported
/// "not found" — the live poller would still be waiting, since it retries
/// without bound by design.
pub fn run_polling(responses: &Vec<JsonValue>) -> (res: Option<(usize, u64)>)
    requires
        responses@.len() * POLL_INTERVAL_MS <= u64::MAX,
    ensures
        match res {
            Some(p) => first_committed(responses@) == Some(p.0 as int) && p.1 == p.0
                * POLL_INTERVAL_MS,
            None => first_committed(responses@) is None,
        },
{
    let n = responses.len();
    let mut i: usize = 0;
    while i < n
        invariant
            n == responses@.len(),
            0 <= i <= n,
            n * POLL_INTERVAL_MS <= u64::MAX,
            forall|j: int| 0 <= j < i ==> spec_tx_not_found(#[trigger] responses@[j]),
        decreases n - i,
    {
        let d = poll_step(&responses[i]);
        match d {
            PollDecision::Committed => {
                proof {
                    lemma_first_committed_at(responses@, i as int);
                    vstd::arithmetic::mul::lemma_mul_inequality(
                        i as int, n as int, POLL_INTERVAL_MS as int);
                }
                let slept: u64 = (i as u64) * POLL_INTERVAL_MS;
                return Some((i, slept));
            },
            PollDecision::NotFoundRetry => {},
        }
        i = i + 1;
    }
    proof {
        lemma_first_committed_none(responses@);
    }
    None
}

/// If every response before `i` is "not found" and the one at `i` is
/// final, the poller stops exactly at `i`.
proof fn lemma_first_committed_at(s: Seq<JsonValue>, i: int)
    requires
        0 <= i < s.len(),
        forall|j: int| 0 <= j < i ==> spec_tx_not_found(#[trigger] s[j]),
        !spec_tx_not_found(s[i]),
    ensures
        first_committed(s) == Some(i),
    decreases i,
{
    if i == 0 {
    } else {
        assert(forall|j: int| 0 <= j < i - 1 ==> spec_tx_not_found(#[trigger] s.drop_first()[j]));
        assert(s.drop_first()[i - 1] == s[i]);
        lemma_first_committed_at(s.drop_first(), i - 1);
    }
}

/// If every response of the trace is "not found", the poller never stops.
proof fn lemma_first_committed_none(s: Seq<JsonValue>)
    requires
        forall|j: int| 0 <= j < s.len() ==> spec_tx_not_found(#[trigger] s[j]),
    ensures
        first_committed(s) is None,
    decreases s.len(),
{
    if s.len() > 0 {
        assert(forall|j: int| 0 <= j < s.drop_first().len() ==> spec_tx_not_found(
            #[trigger] s.drop_first()[j]));
        lemma_first_committed_none(s.drop_first());
    }
}

} // verus!
