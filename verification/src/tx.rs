//! Transaction bodies, sign documents and signing.
//!
//! A transaction body is the encoded message list, a memo and a timeout
//! height. The same body is protobuf-encoded once for gas estimation
//! (with an empty fee and unspecified signing mode) and once for
//! broadcast (with the real fee and direct signing mode); the sign
//! document is the canonical encoding of body, auth info, chain id and
//! account number, and the signature over it is deterministic, so
//! identical inputs always produce identical wire bytes.

use vstd::prelude::*;

verus! {

use crate::account::{Keypair, scalar_ok, secp_pubkey_ok};
use crate::errors::ClientError;
use crate::msg::{AnyMsg, AnyMsgView, Msg, encode_message, spec_msg_valid, spec_encode_msg};
use crate::validate::spec_denom_valid;

/// How many blocks past the current height a transaction stays valid.
pub const TIMEOUT_BLOCK_AMOUNT: u64 = 100;

/// A transaction body: encoded messages, memo, and the height after
/// which the transaction is no longer accepted.
pub struct TxBody {
    pub messages: Vec<AnyMsg>,
    pub memo: String,
    pub timeout_height: u64,
}

/// The views of an encoded message list.
pub open spec fn msgs_view(msgs: Seq<AnyMsg>) -> Seq<AnyMsgView> {
    msgs.map_values(|m: AnyMsg| m@)
}

/// The memo a body carries for an optional memo argument: the given
/// string, or empty.
pub open spec fn spec_memo(memo: Option<String>) -> Seq<char> {
    match memo {
        Some(m) => m@,
        None => Seq::<char>::empty(),
    }
}

/// The protobuf encoding of a transaction body; a pure function of the
/// encoded messages, the memo and the timeout height.
pub uninterp spec fn body_bytes_of(msgs: Seq<AnyMsgView>, memo: Seq<char>, timeout_height: u64) -> Seq<u8>;

/// The protobuf encoding of the simulation auth info: the given public
/// key and sequence, unspecified signing mode, an empty fee with zero
/// gas.
pub uninterp spec fn auth_bytes_unspec_of(pubkey: Seq<u8>, sequence: u64) -> Seq<u8>;

/// The protobuf encoding of the broadcast auth info: the given public
/// key and sequence, direct signing mode, and a single-coin fee.
pub uninterp spec fn auth_bytes_direct_of(
    pubkey: Seq<u8>,
    sequence: u64,
    denom: Seq<char>,
    amount: u128,
    gas_limit: u64,
) -> Seq<u8>;

/// The signed wire transaction: the protobuf encoding of body bytes,
/// auth info bytes and the deterministic ECDSA signature over the sign
/// document (body, auth info, chain id, account number); a pure function
/// of its five inputs.
pub uninterp spec fn signed_tx_of(
    body_bytes: Seq<u8>,
    auth_bytes: Seq<u8>,
    chain_id: Seq<char>,
    account_number: u64,
    privkey: Seq<u8>,
) -> Seq<u8>;

/// The standard, padded base64 encoding of a byte string.
pub uninterp spec fn base64_of(data: Seq<u8>) -> Seq<char>;

/// Encode every message of a transaction for the given sender, in order.
pub fn encode_messages(sender: &str, messages: &Vec<Msg>) -> (res: Result<
    Vec<AnyMsg>,
    ClientError,
>)
    ensures
        res is Ok <==> (forall|i: int| 0 <= i < messages@.len() ==> spec_msg_valid(
            sender@,
            #[trigger] messages@[i],
        )),
        res matches Ok(v) ==> v@.len() == messages@.len() && (forall|i: int|
            0 <= i < messages@.len() ==> v@[i]@ == spec_encode_msg(
                sender@,
                #[trigger] messages@[i],
            )),
        res matches Err(e) ==> e == ClientError::InvalidAddress || e
            == ClientError::InvalidDenom,
{
    let n = messages.len();
    let mut out: Vec<AnyMsg> = Vec::new();
    let mut i: usize = 0;
    while i < n
        invariant
            n == messages@.len(),
            0 <= i <= n,
            out@.len() == i,
            forall|j: int| 0 <= j < i ==> spec_msg_valid(sender@, #[trigger] messages@[j])
                && out@[j]@ == spec_encode_msg(sender@, messages@[j]),
        decreases n - i,
    {
        match encode_message(sender, &messages[i]) {
            Ok(a) => { out.push(a) },
            Err(e) => { return Err(e) },
        }
        i = i + 1;
    }
    Ok(out)
}

/// Build a transaction body: the timeout height is the current height
/// plus the fixed block amount, and an absent memo becomes the empty
/// string.
pub fn build_body(messages: Vec<AnyMsg>, memo: &Option<String>, block_height: u64) -> (body:
    TxBody)
    requires
        block_height + TIMEOUT_BLOCK_AMOUNT <= u64::MAX,
    ensures
        body.messages@ == messages@,
        body.memo@ == spec_memo(*memo),
        body.timeout_height == block_height + TIMEOUT_BLOCK_AMOUNT,
{
    let memo_str = match memo {
        Some(m) => m.clone(),
        None => String::new(),
    };
    TxBody { messages, memo: memo_str, timeout_height: block_height + TIMEOUT_BLOCK_AMOUNT }
}

/// Relies on cosmrs's `Body::new` and `Body::into_bytes` (deterministic
/// protobuf encoding of messages, memo and timeout height, which cannot
/// fail into a fresh buffer) and on tendermint's `Height`, which accepts
/// exactly the heights that fit `i64` — the one thing that decides
/// success here.
#[verifier::external_body]
fn encode_body(body: &TxBody) -> (res: Result<Vec<u8>, ClientError>)
    ensures
        res is Ok <==> body.timeout_height <= i64::MAX as u64,
        res matches Ok(b) ==> b@ == body_bytes_of(
            msgs_view(body.messages@),
            body.memo@,
            body.timeout_height,
        ),
        res matches Err(e) ==> e == ClientError::EncodingError,
{
    let height: cosmrs::tendermint::block::Height = match body.timeout_height.try_into() {
        Ok(h) => h,
        Err(_) => { return Err(ClientError::EncodingError) },
    };
    let anys = body.messages.iter().map(|m| cosmrs::Any {
        type_url: m.type_url.clone(),
        value: m.value.clone(),
    }).collect::<Vec<_>>();
    let b = cosmrs::tx::Body::new(anys, body.memo.clone(), height);
    b.into_bytes().map_err(|_| ClientError::EncodingError)
}

/// Relies on cosmrs's `SignerInfo`, `Fee` and `AuthInfo::into_bytes`
/// (deterministic protobuf encoding, which cannot fail into a fresh
/// buffer) for the simulation shape: empty fee, zero gas, unspecified
/// signing mode; and on tendermint's `PublicKey::from_raw_secp256k1`,
/// which cannot fail on the valid points the `requires` admits — so
/// this always succeeds, and the error arms are unreachable.
#[verifier::external_body]
fn encode_auth_info_unspecified(pubkey: &Vec<u8>, sequence: u64) -> (res: Result<
    Vec<u8>,
    ClientError,
>)
    requires
        secp_pubkey_ok(pubkey@),
    ensures
        res is Ok,
        res matches Ok(b) ==> b@ == auth_bytes_unspec_of(pubkey@, sequence),
{
    let pk: cosmrs::crypto::PublicKey = cosmrs::tendermint::PublicKey::from_raw_secp256k1(
        pubkey).ok_or(ClientError::EncodingError)?.into();
    let single = cosmrs::tx::mode_info::Single { mode: cosmrs::tx::SignMode::Unspecified };
    let si = cosmrs::tx::SignerInfo {
        public_key: Some(pk.into()),
        mode_info: cosmrs::tx::ModeInfo::Single(single),
        sequence,
    };
    let fee = cosmrs::tx::Fee { amount: Vec::new(), gas_limit: 0, payer: None, granter: None };
    si.auth_info(fee).into_bytes().map_err(|_| ClientError::EncodingError)
}

/// Relies on cosmrs's `SignerInfo::single_direct`,
/// `Fee::from_amount_and_gas` and `AuthInfo::into_bytes` (deterministic
/// protobuf encoding, which cannot fail into a fresh buffer) for the
/// broadcast shape; on its `Denom` parser, which accepts every
/// denomination `spec_denom_valid` admits; and on tendermint's
/// `PublicKey::from_raw_secp256k1`, which cannot fail on the valid
/// points the `requires` admits — so this always succeeds, and the
/// error arms are unreachable.
#[verifier::external_body]
fn encode_auth_info_direct(
    pubkey: &Vec<u8>,
    sequence: u64,
    denom: &str,
    amount: u128,
    gas_limit: u64,
) -> (res: Result<Vec<u8>, ClientError>)
    requires
        secp_pubkey_ok(pubkey@),
        spec_denom_valid(denom@),
    ensures
        res is Ok,
        res matches Ok(b) ==> b@ == auth_bytes_direct_of(
            pubkey@,
            sequence,
            denom@,
            amount,
            gas_limit,
        ),
{
    let pk: cosmrs::crypto::PublicKey = cosmrs::tendermint::PublicKey::from_raw_secp256k1(
        pubkey).ok_or(ClientError::EncodingError)?.into();
    let d: cosmrs::Denom = denom.parse().map_err(|_| ClientError::EncodingError)?;
    let fee = cosmrs::tx::Fee::from_amount_and_gas(cosmrs::Coin { denom: d, amount }, gas_limit);
    let si = cosmrs::tx::SignerInfo::single_direct(Some(pk), sequence);
    si.auth_info(fee).into_bytes().map_err(|_| ClientError::EncodingError)
}

/// Relies on cosmrs's `SigningKey::from_slice` (which decides success:
/// it accepts exactly the canonical nonzero 32-byte scalars),
/// `SignDoc::sign` and `Raw::to_bytes`: the sign document is the
/// canonical protobuf encoding of (body bytes, auth info bytes, chain
/// id, account number), the ECDSA signature over it is deterministic
/// (RFC6979) and succeeds for every valid scalar, and the result is the
/// protobuf encoding of body bytes, auth info bytes and that signature —
/// a pure function of the five inputs.
#[verifier::external_body]
fn sign_tx(
    body_bytes: &Vec<u8>,
    auth_bytes: &Vec<u8>,
    chain_id: &str,
    account_number: u64,
    private_key: &Vec<u8>,
) -> (res: Result<Vec<u8>, ClientError>)
    ensures
        res is Ok <==> scalar_ok(private_key@),
        res matches Ok(b) ==> b@ == signed_tx_of(
            body_bytes@,
            auth_bytes@,
            chain_id@,
            account_number,
            private_key@,
        ),
        res matches Err(e) ==> e == ClientError::SigningError,
{
    let sk = cosmrs::crypto::secp256k1::SigningKey::from_slice(private_key).map_err(
        |_| ClientError::SigningError)?;
    let doc = cosmrs::tx::SignDoc {
        body_bytes: body_bytes.clone(),
        auth_info_bytes: auth_bytes.clone(),
        chain_id: chain_id.to_owned(),
        account_number,
    };
    doc.sign(&sk).and_then(|raw| raw.to_bytes()).map_err(|_| ClientError::SigningError)
}

/// Relies on base64's standard engine with padding: four output
/// characters for every three-byte group of input.
#[verifier::external_body]
fn base64_encode(data: &Vec<u8>) -> (res: String)
    ensures
        res@ == base64_of(data@),
        res@.len() == ((data@.len() + 2) / 3) * 4,
{
    base64::Engine::encode(&base64::engine::general_purpose::STANDARD, data)
}

/// Base64-encode a byte string for transport.
pub fn transport_encode(data: &Vec<u8>) -> (res: String)
    ensures
        res@ == base64_of(data@),
        res@.len() == ((data@.len() + 2) / 3) * 4,
{
    base64_encode(data)
}

/// The wire bytes of the throwaway simulation transaction over a body.
pub open spec fn spec_simulate_tx(
    msgs: Seq<AnyMsgView>,
    memo: Seq<char>,
    timeout_height: u64,
    pubkey: Seq<u8>,
    privkey: Seq<u8>,
    chain_id: Seq<char>,
    account_number: u64,
    sequence: u64,
) -> Seq<u8> {
    signed_tx_of(
        body_bytes_of(msgs, memo, timeout_height),
        auth_bytes_unspec_of(pubkey, sequence),
        chain_id,
        account_number,
        privkey,
    )
}

/// The wire bytes of the fee-bearing broadcast transaction over a body.
pub open spec fn spec_broadcast_tx(
    msgs: Seq<AnyMsgView>,
    memo: Seq<char>,
    timeout_height: u64,
    pubkey: Seq<u8>,
    privkey: Seq<u8>,
    chain_id: Seq<char>,
    account_number: u64,
    sequence: u64,
    denom: Seq<char>,
    fee_amount: u128,
    gas_limit: u64,
) -> Seq<u8> {
    signed_tx_of(
        body_bytes_of(msgs, memo, timeout_height),
        auth_bytes_direct_of(pubkey, sequence, denom, fee_amount, gas_limit),
        chain_id,
        account_number,
        privkey,
    )
}

/// Sign a body in simulation shape: empty fee, unspecified mode.
/// Succeeds exactly when the body's timeout height fits the chain's
/// `i64` height type.
pub fn sign_simulation(
    body: &TxBody,
    keypair: &Keypair,
    chain_id: &str,
    account_number: u64,
    sequence: u64,
) -> (res: Result<Vec<u8>, ClientError>)
    requires
        secp_pubkey_ok(keypair.public_key@),
        scalar_ok(keypair.private_key@),
    ensures
        res is Ok <==> body.timeout_height <= i64::MAX as u64,
        res matches Ok(b) ==> b@ == spec_simulate_tx(
            msgs_view(body.messages@),
            body.memo@,
            body.timeout_height,
            keypair.public_key@,
            keypair.private_key@,
            chain_id@,
            account_number,
            sequence,
        ),
        res matches Err(e) ==> e == ClientError::EncodingError,
{
    let body_bytes = match encode_body(body) {
        Ok(b) => b,
        Err(e) => { return Err(e) },
    };
    let auth_bytes = match encode_auth_info_unspecified(&keypair.public_key, sequence) {
        Ok(b) => b,
        Err(e) => { return Err(e) },
    };
    sign_tx(&body_bytes, &auth_bytes, chain_id, account_number, &keypair.private_key)
}

/// Sign a body in broadcast shape: direct mode, single-coin fee.
/// Succeeds exactly when the body's timeout height fits the chain's
/// `i64` height type.
pub fn sign_broadcast(
    body: &TxBody,
    keypair: &Keypair,
    chain_id: &str,
    account_number: u64,
    sequence: u64,
    fee_denom: &str,
    fee_amount: u128,
    gas_limit: u64,
) -> (res: Result<Vec<u8>, ClientError>)
    requires
        secp_pubkey_ok(keypair.public_key@),
        scalar_ok(keypair.private_key@),
        spec_denom_valid(fee_denom@),
    ensures
        res is Ok <==> body.timeout_height <= i64::MAX as u64,
        res matches Ok(b) ==> b@ == spec_broadcast_tx(
            msgs_view(body.messages@),
            body.memo@,
            body.timeout_height,
            keypair.public_key@,
            keypair.private_key@,
            chain_id@,
            account_number,
            sequence,
            fee_denom@,
            fee_amount,
            gas_limit,
        ),
        res matches Err(e) ==> e == ClientError::EncodingError,
{
    let body_bytes = match encode_body(body) {
        Ok(b) => b,
        Err(e) => { return Err(e) },
    };
    let auth_bytes = match encode_auth_info_direct(
        &keypair.public_key,
        sequence,
        fee_denom,
        fee_amount,
        gas_limit,
    ) {
        Ok(b) => b,
        Err(e) => { return Err(e) },
    };
    sign_tx(&body_bytes, &auth_bytes, chain_id, account_number, &keypair.private_key)
}

/// Signing is deterministic: two signed transactions built from the same
/// body bytes, auth info bytes, chain id, account number and private key
/// are byte-identical.
pub proof fn lemma_sign_deterministic(
    r1: Seq<u8>,
    r2: Seq<u8>,
    body_bytes: Seq<u8>,
    auth_bytes: Seq<u8>,
    chain_id: Seq<char>,
    account_number: u64,
    privkey: Seq<u8>,
)
    requires
        r1 == signed_tx_of(body_bytes, auth_bytes, chain_id, account_number, privkey),
        r2 == signed_tx_of(body_bytes, auth_bytes, chain_id, account_number, privkey),
    ensures
        r1 == r2,
{
}

/// The simulated and the broadcast transaction over one body share the
/// same body bytes: they differ only in the auth info, that is in the
/// fee and the signing mode.
pub proof fn lemma_simulate_broadcast_share_body(
    msgs: Seq<AnyMsgView>,
    memo: Seq<char>,
    timeout_height: u64,
    pubkey: Seq<u8>,
    privkey: Seq<u8>,
    chain_id: Seq<char>,
    account_number: u64,
    sequence: u64,
    denom: Seq<char>,
    fee_amount: u128,
    gas_limit: u64,
)
    ensures
        ({
            let shared_body = body_bytes_of(msgs, memo, timeout_height);
            spec_simulate_tx(
                msgs,
                memo,
                timeout_height,
                pubkey,
                privkey,
                chain_id,
                account_number,
                sequence,
            ) == signed_tx_of(
                shared_body,
                auth_bytes_unspec_of(pubkey, sequence),
                chain_id,
                account_number,
                privkey,
            ) && spec_broadcast_tx(
                msgs,
                memo,
                timeout_height,
                pubkey,
                privkey,
                chain_id,
                account_number,
                sequence,
                denom,
                fee_amount,
                gas_limit,
            ) == signed_tx_of(
                shared_body,
                auth_bytes_direct_of(pubkey, sequence, denom, fee_amount, gas_limit),
                chain_id,
                account_number,
                privkey,
            )
        }),
{
}

} // verus!
