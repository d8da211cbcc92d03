//! Protocol messages and their wire encoding.
//!
//! A transaction carries a list of tagged messages; the sender is always
//! the signing account. Each variant has one encoding function that turns
//! it into a protobuf `Any` record — a type URL plus value bytes. The
//! protobuf serialization itself is done by cosmrs behind one trusted
//! wrapper per variant; the wrappers name the resulting bytes as pure
//! functions of the message fields, which is what makes the whole
//! pipeline deterministic.

use vstd::prelude::*;

verus! {

use crate::errors::ClientError;
use crate::validate::spec_denom_valid;

/// A token amount in a given denomination.
#[derive(Debug)]
pub struct Coin {
    pub denom: String,
    pub amount: u128,
}

/// Spec-level image of a `Coin`.
pub struct CoinView {
    pub denom: Seq<char>,
    pub amount: u128,
}

impl View for Coin {
    type V = CoinView;

    open spec fn view(&self) -> CoinView {
        CoinView { denom: self.denom@, amount: self.amount }
    }
}

/// A protobuf `Any` record: a type URL and the encoded value bytes.
#[derive(Debug)]
pub struct AnyMsg {
    pub type_url: String,
    pub value: Vec<u8>,
}

/// Spec-level image of an `AnyMsg`.
pub struct AnyMsgView {
    pub type_url: Seq<char>,
    pub value: Seq<u8>,
}

impl View for AnyMsg {
    type V = AnyMsgView;

    open spec fn view(&self) -> AnyMsgView {
        AnyMsgView { type_url: self.type_url@, value: self.value@ }
    }
}

/// One protocol message, without its sender: the sender is the signing
/// account and is supplied when the message is encoded.
#[derive(Debug)]
pub enum Msg {
    /// Upload contract bytecode.
    StoreCode { bytecode: Vec<u8> },
    /// Instantiate uploaded code into a contract.
    Instantiate {
        code_id: u64,
        payload: Vec<u8>,
        funds: Vec<Coin>,
        label: Option<String>,
        admin: Option<String>,
    },
    /// Execute a contract method.
    Execute { contract: String, payload: Vec<u8>, funds: Vec<Coin> },
    /// Migrate a contract to new code.
    Migrate { contract: String, code_id: u64, payload: Vec<u8> },
    /// An arbitrary, already-encoded protocol message.
    Raw { type_url: String, value: Vec<u8> },
}

/// Whether a string parses as a bech32 account address; decided by
/// cosmrs's `AccountId` parser, a pure function of the string.
pub uninterp spec fn account_id_ok(s: Seq<char>) -> bool;

/// The protobuf value bytes of a store-code message; a pure function of
/// its fields.
pub uninterp spec fn store_code_bytes(sender: Seq<char>, bytecode: Seq<u8>) -> Seq<u8>;

/// The protobuf value bytes of an instantiate message.
pub uninterp spec fn instantiate_bytes(
    sender: Seq<char>,
    admin: Option<Seq<char>>,
    code_id: u64,
    label: Option<Seq<char>>,
    payload: Seq<u8>,
    funds: Seq<CoinView>,
) -> Seq<u8>;

/// The protobuf value bytes of an execute message.
pub uninterp spec fn execute_bytes(
    sender: Seq<char>,
    contract: Seq<char>,
    payload: Seq<u8>,
    funds: Seq<CoinView>,
) -> Seq<u8>;

/// The protobuf value bytes of a migrate message.
pub uninterp spec fn migrate_bytes(
    sender: Seq<char>,
    contract: Seq<char>,
    code_id: u64,
    payload: Seq<u8>,
) -> Seq<u8>;

/// The view of an optional string.
pub open spec fn opt_str_view(o: Option<String>) -> Option<Seq<char>> {
    match o {
        Some(s) => Some(s@),
        None => None,
    }
}

/// The views of a coin list.
pub open spec fn coins_view(s: Seq<Coin>) -> Seq<CoinView> {
    s.map_values(|c: Coin| c@)
}

/// Whether every coin of a list has a valid denomination.
pub open spec fn all_denoms_valid(funds: Seq<CoinView>) -> bool {
    forall|i: int| 0 <= i < funds.len() ==> spec_denom_valid(#[trigger] funds[i].denom)
}

/// Check that every coin of a fund list has a valid denomination.
fn funds_denoms_valid(funds: &Vec<Coin>) -> (r: bool)
    ensures
        r == all_denoms_valid(coins_view(funds@)),
{
    let n = funds.len();
    let mut i: usize = 0;
    while i < n
        invariant
            n == funds@.len(),
            0 <= i <= n,
            forall|j: int| 0 <= j < i ==> spec_denom_valid(
                #[trigger] coins_view(funds@)[j].denom,
            ),
        decreases n - i,
    {
        proof {
            assert(coins_view(funds@)[i as int] == funds@[i as int]@);
        }
        if !crate::validate::denom_valid(funds[i].denom.as_str()) {
            proof {
                assert(!spec_denom_valid(coins_view(funds@)[i as int].denom));
            }
            return false;
        }
        i = i + 1;
    }
    true
}

/// Relies on cosmrs's `AccountId` parser and on `MsgStoreCode`'s
/// protobuf encoding via `Msg::to_any`, a pure function of the message
/// fields whose prost encoding into a fresh buffer cannot fail — so
/// success is decided by the sender's bech32 validity alone, and the
/// encoder's error arm is unreachable.
#[verifier::external_body]
fn encode_store_code(sender: &str, bytecode: &Vec<u8>) -> (res: Result<AnyMsg, ClientError>)
    ensures
        res is Ok <==> account_id_ok(sender@),
        res matches Ok(a) ==> a.type_url@ == "/cosmwasm.wasm.v1.MsgStoreCode"@ && a.value@
            == store_code_bytes(sender@, bytecode@),
        res matches Err(e) ==> e == ClientError::InvalidAddress,
{
    let sender_id: cosmrs::AccountId = match sender.parse() {
        Ok(a) => a,
        Err(_) => { return Err(ClientError::InvalidAddress) },
    };
    let msg = cosmrs::cosmwasm::MsgStoreCode {
        sender: sender_id, wasm_byte_code: bytecode.clone(), instantiate_permission: None,
    };
    cosmrs::tx::Msg::to_any(&msg).map(|a| AnyMsg { type_url: a.type_url, value: a.value })
        .map_err(|_| ClientError::EncodingError)
}

/// Relies on cosmrs's `AccountId` parser for sender and admin, on its
/// `Denom` parser, which cannot fail on the denominations
/// `spec_denom_valid` admits (all that the `requires` lets in), and on
/// `MsgInstantiateContract`'s protobuf encoding via `Msg::to_any`,
/// whose prost encoding into a fresh buffer cannot fail — so success is
/// decided by the address parses alone and the encoder's error arm is
/// unreachable.
#[verifier::external_body]
fn encode_instantiate(
    sender: &str,
    code_id: u64,
    payload: &Vec<u8>,
    funds: &Vec<Coin>,
    label: &Option<String>,
    admin: &Option<String>,
) -> (res: Result<AnyMsg, ClientError>)
    requires
        all_denoms_valid(coins_view(funds@)),
    ensures
        res is Ok <==> (account_id_ok(sender@) && (admin matches Some(ad) ==> account_id_ok(
            ad@,
        ))),
        res matches Err(e) ==> e == ClientError::InvalidAddress,
        res matches Ok(a) ==> {
            &&& a.type_url@ == "/cosmwasm.wasm.v1.MsgInstantiateContract"@
            &&& a.value@ == instantiate_bytes(
                sender@,
                opt_str_view(*admin),
                code_id,
                opt_str_view(*label),
                payload@,
                coins_view(funds@),
            )
        },
{
    let sender_id: cosmrs::AccountId = sender.parse().map_err(|_| ClientError::InvalidAddress)?;
    let admin_id = match admin {
        Some(a) => Some(a.parse().map_err(|_| ClientError::InvalidAddress)?),
        None => None,
    };
    let cfunds: Vec<cosmrs::Coin> = funds.iter().map(|c| cosmrs::Coin {
        denom: c.denom.parse().unwrap(), amount: c.amount }).collect();
    let msg = cosmrs::cosmwasm::MsgInstantiateContract {
        sender: sender_id, admin: admin_id, code_id, label: label.clone(),
        msg: payload.clone(), funds: cfunds,
    };
    cosmrs::tx::Msg::to_any(&msg).map(|a| AnyMsg { type_url: a.type_url, value: a.value })
        .map_err(|_| ClientError::EncodingError)
}

/// Relies on cosmrs's `AccountId` parser for sender and contract, on its
/// `Denom` parser, which cannot fail on the denominations the `requires`
/// lets in, and on `MsgExecuteContract`'s protobuf encoding via
/// `Msg::to_any`, whose prost encoding into a fresh buffer cannot fail —
/// so success is decided by the two address parses alone and the
/// encoder's error arm is unreachable.
#[verifier::external_body]
fn encode_execute(sender: &str, contract: &str, payload: &Vec<u8>, funds: &Vec<Coin>) -> (res:
    Result<AnyMsg, ClientError>)
    requires
        all_denoms_valid(coins_view(funds@)),
    ensures
        res is Ok <==> (account_id_ok(sender@) && account_id_ok(contract@)),
        res matches Err(e) ==> e == ClientError::InvalidAddress,
        res matches Ok(a) ==> {
            &&& a.type_url@ == "/cosmwasm.wasm.v1.MsgExecuteContract"@
            &&& a.value@ == execute_bytes(sender@, contract@, payload@, coins_view(funds@))
        },
{
    let sender_id: cosmrs::AccountId = sender.parse().map_err(|_| ClientError::InvalidAddress)?;
    let contract_id: cosmrs::AccountId = contract.parse().map_err(
        |_| ClientError::InvalidAddress)?;
    let cfunds: Vec<cosmrs::Coin> = funds.iter().map(|c| cosmrs::Coin {
        denom: c.denom.parse().unwrap(), amount: c.amount }).collect();
    let msg = cosmrs::cosmwasm::MsgExecuteContract {
        sender: sender_id, contract: contract_id, msg: payload.clone(), funds: cfunds,
    };
    cosmrs::tx::Msg::to_any(&msg).map(|a| AnyMsg { type_url: a.type_url, value: a.value })
        .map_err(|_| ClientError::EncodingError)
}

/// Relies on cosmrs's `AccountId` parser for sender and contract and on
/// `MsgMigrateContract`'s protobuf encoding via `Msg::to_any`, whose
/// prost encoding into a fresh buffer cannot fail — so success is
/// decided by the two address parses alone and the encoder's error arm
/// is unreachable.
#[verifier::external_body]
fn encode_migrate(sender: &str, contract: &str, code_id: u64, payload: &Vec<u8>) -> (res: Result<
    AnyMsg,
    ClientError,
>)
    ensures
        res is Ok <==> (account_id_ok(sender@) && account_id_ok(contract@)),
        res matches Err(e) ==> e == ClientError::InvalidAddress,
        res matches Ok(a) ==> {
            &&& a.type_url@ == "/cosmwasm.wasm.v1.MsgMigrateContract"@
            &&& a.value@ == migrate_bytes(sender@, contract@, code_id, payload@)
        },
{
    let sender_id: cosmrs::AccountId = sender.parse().map_err(|_| ClientError::InvalidAddress)?;
    let contract_id: cosmrs::AccountId = contract.parse().map_err(
        |_| ClientError::InvalidAddress)?;
    let msg = cosmrs::cosmwasm::MsgMigrateContract {
        sender: sender_id, contract: contract_id, code_id, msg: payload.clone(),
    };
    cosmrs::tx::Msg::to_any(&msg).map(|a| AnyMsg { type_url: a.type_url, value: a.value })
        .map_err(|_| ClientError::EncodingError)
}

/// Whether a message can be encoded for the given sender: the sender,
/// every address the message carries, and every fund denomination must be
/// well-formed.
pub open spec fn spec_msg_valid(sender: Seq<char>, m: Msg) -> bool {
    match m {
        Msg::StoreCode { .. } => account_id_ok(sender),
        Msg::Instantiate { funds, admin, .. } => {
            &&& account_id_ok(sender)
            &&& (admin matches Some(ad) ==> account_id_ok(ad@))
            &&& all_denoms_valid(coins_view(funds@))
        },
        Msg::Execute { contract, funds, .. } => {
            &&& account_id_ok(sender)
            &&& account_id_ok(contract@)
            &&& all_denoms_valid(coins_view(funds@))
        },
        Msg::Migrate { contract, .. } => account_id_ok(sender) && account_id_ok(contract@),
        Msg::Raw { .. } => true,
    }
}

/// The `Any` record a message encodes to under the given sender.
pub open spec fn spec_encode_msg(sender: Seq<char>, m: Msg) -> AnyMsgView {
    match m {
        Msg::StoreCode { bytecode } => AnyMsgView {
            type_url: "/cosmwasm.wasm.v1.MsgStoreCode"@,
            value: store_code_bytes(sender, bytecode@),
        },
        Msg::Instantiate { code_id, payload, funds, label, admin } => AnyMsgView {
            type_url: "/cosmwasm.wasm.v1.MsgInstantiateContract"@,
            value: instantiate_bytes(
                sender,
                opt_str_view(admin),
                code_id,
                opt_str_view(label),
                payload@,
                coins_view(funds@),
            ),
        },
        Msg::Execute { contract, payload, funds } => AnyMsgView {
            type_url: "/cosmwasm.wasm.v1.MsgExecuteContract"@,
            value: execute_bytes(sender, contract@, payload@, coins_view(funds@)),
        },
        Msg::Migrate { contract, code_id, payload } => AnyMsgView {
            type_url: "/cosmwasm.wasm.v1.MsgMigrateContract"@,
            value: migrate_bytes(sender, contract@, code_id, payload@),
        },
        Msg::Raw { type_url, value } => AnyMsgView { type_url: type_url@, value: value@ },
    }
}

/// Encode one message into its `Any` record for the given sender.
///
/// A malformed address gives `InvalidAddress`, a malformed fund
/// denomination gives `InvalidDenom`; on success the record is exactly
/// the message's deterministic encoding.
pub fn encode_message(sender: &str, m: &Msg) -> (res: Result<AnyMsg, ClientError>)
    ensures
        res is Ok <==> spec_msg_valid(sender@, *m),
        res matches Ok(a) ==> a@ == spec_encode_msg(sender@, *m),
        res matches Err(e) ==> e == ClientError::InvalidAddress || e
            == ClientError::InvalidDenom,
{
    match m {
        Msg::StoreCode { bytecode } => encode_store_code(sender, bytecode),
        Msg::Instantiate { code_id, payload, funds, label, admin } => {
            if !funds_denoms_valid(funds) {
                return Err(ClientError::InvalidDenom);
            }
            encode_instantiate(sender, *code_id, payload, funds, label, admin)
        },
        Msg::Execute { contract, payload, funds } => {
            if !funds_denoms_valid(funds) {
                return Err(ClientError::InvalidDenom);
            }
            encode_execute(sender, contract.as_str(), payload, funds)
        },
        Msg::Migrate { contract, code_id, payload } => encode_migrate(
            sender,
            contract.as_str(),
            *code_id,
            payload,
        ),
        Msg::Raw { type_url, value } => Ok(
            AnyMsg { type_url: type_url.clone(), value: value.clone() },
        ),
    }
}

} // verus!
