//! The query and signing clients.
//!
//! A client owns an immutable `Network` snapshot (and, for signing, an
//! account). All network traffic stays outside the library: each
//! operation is split into a request builder, which produces the exact
//! path and JSON body to send, and a response reader, which classifies
//! what came back. The caller drives the round trips:
//! current height, then account state, then simulate, then broadcast —
//! each with a freshly fetched sequence number.
//!
//! Nothing here serializes account sequence numbers across concurrent
//! flows: two flows for the same account that fetch the same sequence
//! number race, and the chain rejects one of them (see
//! `lemma_sequence_race`). Callers that need concurrency must serialize
//! per account outside the library.

use vstd::prelude::*;

verus! {

use crate::account::{
    AccountWithInfo, derive_ok, mnemonic_ok, path_parses, privkey_of, pubkey_of, seed_of,
};
use crate::errors::ClientError;
use crate::json::JsonValue;
use crate::msg::{Msg, spec_encode_msg, spec_msg_valid};
use crate::numeric::{Ratio, ratio_ceil, apply_ratio_ceil, fee_amount};
use crate::response::spec_gas_used;
use crate::tx::{
    TIMEOUT_BLOCK_AMOUNT, base64_of, build_body, encode_messages, msgs_view, sign_broadcast,
    sign_simulation, spec_broadcast_tx, spec_memo, spec_simulate_tx, transport_encode,
};
use crate::validate::{chain_id_valid, denom_valid, spec_chain_id_valid, spec_denom_valid};

/// One blockchain deployment target. Immutable for the life of a
/// session; the gas price and adjustment are exact ratios.
pub struct Network {
    pub chain_id: String,
    pub lcd_addr: String,
    pub gas_price: Ratio,
    pub gas_adjustment: Ratio,
    pub gas_denom: String,
    pub account_prefix: String,
}

impl Network {
    /// A usable network configuration: both ratios have positive
    /// denominators.
    pub open spec fn wf(self) -> bool {
        self.gas_price.wf() && self.gas_adjustment.wf()
    }
}

/// The relative path of the latest-block query.
pub fn latest_block_path() -> (res: String)
    ensures
        res@ == "cosmos/base/tendermint/v1beta1/blocks/latest"@,
{
    String::from_str("cosmos/base/tendermint/v1beta1/blocks/latest")
}

/// The relative path of the account lookup for an address.
pub fn account_path(address: &str) -> (res: String)
    ensures
        res@ == "cosmos/auth/v1beta1/accounts/"@ + address@,
{
    let mut s = String::from_str("cosmos/auth/v1beta1/accounts/");
    s.append(address);
    s
}

/// The relative path of the transaction lookup for a hash.
pub fn tx_lookup_path(tx_hash: &str) -> (res: String)
    ensures
        res@ == "cosmos/tx/v1beta1/txs/"@ + tx_hash@,
{
    let mut s = String::from_str("cosmos/tx/v1beta1/txs/");
    s.append(tx_hash);
    s
}

/// The relative path of the simulate endpoint.
pub fn simulate_path() -> (res: String)
    ensures
        res@ == "cosmos/tx/v1beta1/simulate"@,
{
    String::from_str("cosmos/tx/v1beta1/simulate")
}

/// The relative path of the broadcast endpoint.
pub fn broadcast_path() -> (res: String)
    ensures
        res@ == "cosmos/tx/v1beta1/txs"@,
{
    String::from_str("cosmos/tx/v1beta1/txs")
}

/// A read-only client over a network's query endpoints.
pub struct QueryClient {
    pub network: Network,
}

impl QueryClient {
    pub fn new(network: Network) -> (res: QueryClient)
        ensures
            res.network == network,
    {
        QueryClient { network }
    }

    /// Turn this client into a signing client for an account.
    pub fn into_signing(self, account: AccountWithInfo) -> (res: SigningClient)
        ensures
            res.network == self.network,
            res.account == account,
    {
        SigningClient { network: self.network, account }
    }

    /// The relative path of a smart query: the JSON-serialized request
    /// payload travels base64-encoded inside the path.
    pub fn smart_query_path(&self, address: &str, payload: &Vec<u8>) -> (res: String)
        ensures
            res@ == "cosmwasm/wasm/v1/contract/"@ + address@ + "/smart/"@ + base64_of(
                payload@,
            ),
    {
        let encoded = transport_encode(payload);
        let mut s = String::from_str("cosmwasm/wasm/v1/contract/");
        s.append(address);
        s.append("/smart/");
        s.append(encoded.as_str());
        s
    }

    /// Pull the `data` field out of a smart-query response; its absence
    /// means the response did not have the expected shape.
    pub fn query_data<'a>(response: &'a JsonValue) -> (res: Result<&'a JsonValue, ClientError>)
        ensures
            match res {
                Ok(d) => crate::json::obj_get(*response, "data"@) == Some(*d),
                Err(e) => crate::json::obj_get(*response, "data"@) is None && e
                    == ClientError::QueryError,
            },
    {
        match response.get("data") {
            Some(d) => Ok(d),
            None => Err(ClientError::QueryError),
        }
    }
}

/// Whether every message of a list can be encoded for the sender.
pub open spec fn spec_msgs_valid(sender: Seq<char>, msgs: Seq<Msg>) -> bool {
    forall|i: int| 0 <= i < msgs.len() ==> spec_msg_valid(sender, #[trigger] msgs[i])
}

/// The encodings of a message list for the sender, in order.
pub open spec fn spec_msgs_encoded(sender: Seq<char>, msgs: Seq<Msg>) -> Seq<
    crate::msg::AnyMsgView,
> {
    msgs.map_values(|m: Msg| spec_encode_msg(sender, m))
}

/// The shape of a simulate request body: one field, `tx_bytes`, holding
/// the base64 transport encoding of the given wire transaction.
pub open spec fn is_simulate_request(v: JsonValue, tx: Seq<u8>) -> bool {
    &&& v matches JsonValue::Obj(fields)
    &&& fields@.len() == 1
    &&& fields@[0].0@ == "tx_bytes"@
    &&& fields@[0].1 matches JsonValue::Str(s) && s@ == base64_of(tx)
}

/// The shape of a broadcast request body: `tx_bytes` as above, plus the
/// synchronous broadcast mode.
pub open spec fn is_broadcast_request(v: JsonValue, tx: Seq<u8>) -> bool {
    &&& v matches JsonValue::Obj(fields)
    &&& fields@.len() == 2
    &&& fields@[0].0@ == "tx_bytes"@
    &&& fields@[0].1 matches JsonValue::Str(s) && s@ == base64_of(tx)
    &&& fields@[1].0@ == "mode"@
    &&& fields@[1].1 matches JsonValue::Str(m) && m@ == "BROADCAST_MODE_SYNC"@
}

/// A client that can sign and submit transactions for one account.
pub struct SigningClient {
    pub network: Network,
    pub account: AccountWithInfo,
}

impl SigningClient {
    pub fn new(network: Network, account: AccountWithInfo) -> (res: SigningClient)
        ensures
            res.network == network,
            res.account == account,
    {
        SigningClient { network, account }
    }

    /// Drop the account and keep a read-only client.
    pub fn into_query(self) -> (res: QueryClient)
        ensures
            res.network == self.network,
    {
        QueryClient { network: self.network }
    }

    pub fn get_account(&self) -> (res: &AccountWithInfo)
        ensures
            *res == self.account,
    {
        &self.account
    }

    /// The private key this client signs with, as named results of the
    /// account's mnemonic and derivation path.
    pub open spec fn spec_privkey(self) -> Seq<u8> {
        privkey_of(seed_of(self.account.inner.mnemonic@), self.account.derivation_path@)
    }

    /// The public key this client signs with.
    pub open spec fn spec_pubkey(self) -> Seq<u8> {
        pubkey_of(seed_of(self.account.inner.mnemonic@), self.account.derivation_path@)
    }

    /// The wire bytes of the simulation transaction this client builds
    /// for the given messages, memo, height and signing context.
    pub open spec fn spec_simulation_bytes(
        self,
        messages: Seq<Msg>,
        memo: Option<String>,
        block_height: u64,
        account_number: u64,
        sequence: u64,
    ) -> Seq<u8> {
        spec_simulate_tx(
            spec_msgs_encoded(self.account.address@, messages),
            spec_memo(memo),
            (block_height + TIMEOUT_BLOCK_AMOUNT) as u64,
            self.spec_pubkey(),
            self.spec_privkey(),
            self.network.chain_id@,
            account_number,
            sequence,
        )
    }

    /// The wire bytes of the broadcast transaction this client builds,
    /// carrying a fee priced at the network's gas price.
    pub open spec fn spec_broadcast_bytes(
        self,
        messages: Seq<Msg>,
        memo: Option<String>,
        block_height: u64,
        account_number: u64,
        sequence: u64,
        gas_limit: u64,
    ) -> Seq<u8> {
        spec_broadcast_tx(
            spec_msgs_encoded(self.account.address@, messages),
            spec_memo(memo),
            (block_height + TIMEOUT_BLOCK_AMOUNT) as u64,
            self.spec_pubkey(),
            self.spec_privkey(),
            self.network.chain_id@,
            account_number,
            sequence,
            self.network.gas_denom@,
            ratio_ceil(gas_limit as int, self.network.gas_price) as u128,
            gas_limit,
        )
    }

    /// The condition under which a request is owed to be built: the
    /// account's key material derives, every message encodes, and the
    /// chain id is well-formed.
    pub open spec fn spec_request_ok(self, messages: Seq<Msg>) -> bool {
        &&& mnemonic_ok(self.account.inner.mnemonic@)
        &&& path_parses(self.account.derivation_path@)
        &&& derive_ok(seed_of(self.account.inner.mnemonic@), self.account.derivation_path@)
        &&& spec_msgs_valid(self.account.address@, messages)
        &&& spec_chain_id_valid(self.network.chain_id@)
    }

    /// Build the simulate request for a transaction: the body is signed
    /// in unsigned-mode shape with an empty fee, exactly as the simulate
    /// endpoint expects, and wrapped in the request JSON. Succeeds
    /// exactly when the key material derives, every message encodes and
    /// the chain id is well-formed; each failure is classified.
    pub fn estimate_gas_request(
        &self,
        messages: &Vec<Msg>,
        memo: &Option<String>,
        block_height: u64,
        account_number: u64,
        sequence: u64,
    ) -> (res: Result<JsonValue, ClientError>)
        requires
            block_height + TIMEOUT_BLOCK_AMOUNT <= i64::MAX as u64,
        ensures
            res is Ok <==> self.spec_request_ok(messages@),
            res matches Ok(v) ==> is_simulate_request(
                v,
                self.spec_simulation_bytes(
                    messages@,
                    *memo,
                    block_height,
                    account_number,
                    sequence,
                ),
            ),
            res == Err::<JsonValue, ClientError>(ClientError::InvalidMnemonic) <==> !mnemonic_ok(
                self.account.inner.mnemonic@,
            ),
            mnemonic_ok(self.account.inner.mnemonic@) && !(path_parses(
                self.account.derivation_path@,
            ) && derive_ok(seed_of(self.account.inner.mnemonic@), self.account.derivation_path@))
                ==> res == Err::<JsonValue, ClientError>(ClientError::InvalidDerivationPath),
            mnemonic_ok(self.account.inner.mnemonic@) && path_parses(
                self.account.derivation_path@,
            ) && derive_ok(seed_of(self.account.inner.mnemonic@), self.account.derivation_path@)
                && !spec_chain_id_valid(self.network.chain_id@) ==> res == Err::<
                JsonValue,
                ClientError,
            >(ClientError::InvalidChainId),
    {
        let keypair = match self.account.get_keypair() {
            Ok(k) => k,
            Err(e) => { return Err(e) },
        };
        if !chain_id_valid(self.network.chain_id.as_str()) {
            return Err(ClientError::InvalidChainId);
        }
        let encoded = match encode_messages(self.account.address.as_str(), messages) {
            Ok(v) => v,
            Err(e) => { return Err(e) },
        };
        let body = build_body(encoded, memo, block_height);
        proof {
            assert(msgs_view(body.messages@) =~= spec_msgs_encoded(
                self.account.address@,
                messages@,
            ));
        }
        let tx = match sign_simulation(
            &body,
            &keypair,
            self.network.chain_id.as_str(),
            account_number,
            sequence,
        ) {
            Ok(b) => b,
            Err(e) => { return Err(e) },
        };
        let b64 = transport_encode(&tx);
        let mut fields: Vec<(String, JsonValue)> = Vec::new();
        fields.push((String::from_str("tx_bytes"), JsonValue::Str(b64)));
        Ok(JsonValue::Obj(fields))
    }

    /// Read the simulate response and apply the network's gas adjustment,
    /// rounding up: the result is exactly `ceil(gas_used * adjustment)`.
    pub fn estimate_gas_result(&self, response: &JsonValue) -> (res: Result<u64, ClientError>)
        requires
            self.network.wf(),
        ensures
            match res {
                Ok(g) => spec_gas_used(*response) matches Some(u) && g == ratio_ceil(
                    u as int,
                    self.network.gas_adjustment,
                ),
                Err(e) => e == ClientError::SimulationError && (spec_gas_used(*response) is None
                    || (spec_gas_used(*response) matches Some(u) && ratio_ceil(
                    u as int,
                    self.network.gas_adjustment,
                ) > u64::MAX)),
            },
    {
        let used = match crate::response::parse_gas_used(response) {
            Ok(u) => u,
            Err(e) => { return Err(e) },
        };
        match apply_ratio_ceil(used, &self.network.gas_adjustment) {
            Some(g) => Ok(g),
            None => Err(ClientError::SimulationError),
        }
    }

    /// Build the broadcast request for a transaction: the same body as
    /// the simulation, now signed in direct mode with a fee of
    /// `ceil(gas_limit * gas_price)` in the network's gas denomination,
    /// wrapped in the synchronous-mode request JSON. Succeeds exactly
    /// when a simulate request would, and the gas denomination is also
    /// well-formed; each failure is classified.
    pub fn broadcast_request(
        &self,
        messages: &Vec<Msg>,
        memo: &Option<String>,
        block_height: u64,
        account_number: u64,
        sequence: u64,
        gas_limit: u64,
    ) -> (res: Result<JsonValue, ClientError>)
        requires
            block_height + TIMEOUT_BLOCK_AMOUNT <= i64::MAX as u64,
            self.network.wf(),
        ensures
            res is Ok <==> self.spec_request_ok(messages@) && spec_denom_valid(
                self.network.gas_denom@,
            ),
            res matches Ok(v) ==> is_broadcast_request(
                v,
                self.spec_broadcast_bytes(
                    messages@,
                    *memo,
                    block_height,
                    account_number,
                    sequence,
                    gas_limit,
                ),
            ),
            res == Err::<JsonValue, ClientError>(ClientError::InvalidMnemonic) <==> !mnemonic_ok(
                self.account.inner.mnemonic@,
            ),
            mnemonic_ok(self.account.inner.mnemonic@) && !(path_parses(
                self.account.derivation_path@,
            ) && derive_ok(seed_of(self.account.inner.mnemonic@), self.account.derivation_path@))
                ==> res == Err::<JsonValue, ClientError>(ClientError::InvalidDerivationPath),
            mnemonic_ok(self.account.inner.mnemonic@) && path_parses(
                self.account.derivation_path@,
            ) && derive_ok(seed_of(self.account.inner.mnemonic@), self.account.derivation_path@)
                && !spec_chain_id_valid(self.network.chain_id@) ==> res == Err::<
                JsonValue,
                ClientError,
            >(ClientError::InvalidChainId),
            mnemonic_ok(self.account.inner.mnemonic@) && path_parses(
                self.account.derivation_path@,
            ) && derive_ok(seed_of(self.account.inner.mnemonic@), self.account.derivation_path@)
                && spec_chain_id_valid(self.network.chain_id@) && !spec_denom_valid(
                self.network.gas_denom@,
            ) ==> res == Err::<JsonValue, ClientError>(ClientError::InvalidDenom),
    {
        let keypair = match self.account.get_keypair() {
            Ok(k) => k,
            Err(e) => { return Err(e) },
        };
        if !chain_id_valid(self.network.chain_id.as_str()) {
            return Err(ClientError::InvalidChainId);
        }
        if !denom_valid(self.network.gas_denom.as_str()) {
            return Err(ClientError::InvalidDenom);
        }
        let encoded = match encode_messages(self.account.address.as_str(), messages) {
            Ok(v) => v,
            Err(e) => { return Err(e) },
        };
        let fee = fee_amount(gas_limit, &self.network.gas_price);
        let body = build_body(encoded, memo, block_height);
        proof {
            assert(msgs_view(body.messages@) =~= spec_msgs_encoded(
                self.account.address@,
                messages@,
            ));
        }
        let tx = match sign_broadcast(
            &body,
            &keypair,
            self.network.chain_id.as_str(),
            account_number,
            sequence,
            self.network.gas_denom.as_str(),
            fee,
            gas_limit,
        ) {
            Ok(b) => b,
            Err(e) => { return Err(e) },
        };
        let b64 = transport_encode(&tx);
        let mut fields: Vec<(String, JsonValue)> = Vec::new();
        fields.push((String::from_str("tx_bytes"), JsonValue::Str(b64)));
        fields.push((String::from_str("mode"), JsonValue::Str(String::from_str(
            "BROADCAST_MODE_SYNC",
        ))));
        Ok(JsonValue::Obj(fields))
    }
}

/// The chain accepts a broadcast exactly when the transaction's sequence
/// number equals the account's expected next sequence.
pub open spec fn sequence_accepted(expected: u64, tx_sequence: u64) -> bool {
    tx_sequence == expected
}

/// The documented concurrent-sequence race: two flows for the same
/// account that both fetched the current expected sequence sign with the
/// same number. Whichever broadcast the chain processes first is
/// accepted, after which the expected sequence has advanced, so the
/// other — still carrying the old number — is rejected with a sequence
/// mismatch. The library does not serialize sequences; resolving the
/// race is the caller's concern.
pub proof fn lemma_sequence_race(expected: u64, s1: u64, s2: u64)
    requires
        s1 == expected,
        s2 == s1,
        expected < u64::MAX,
    ensures
        sequence_accepted(expected, s1),
        !sequence_accepted((expected + 1) as u64, s2),
{
}

} // verus!
