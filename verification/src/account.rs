//! Accounts and hierarchical key derivation.
//!
//! A mnemonic phrase and a derivation path determine, deterministically, a
//! keypair and — together with a chain's address prefix — the account's
//! bech32 address. Keypairs are ephemeral by design: every signing
//! operation re-derives them from the mnemonic rather than caching private
//! key material.
//!
//! The cryptography itself (BIP39 seed stretching, BIP32 child derivation,
//! the hash-and-bech32 address encoding) is done by outside crates behind
//! the trusted wrappers below; everything downstream speaks only of the
//! named results, so that derivation and signing are verified to be pure
//! functions of the phrase and path — and derivation is owed to succeed
//! exactly on the inputs the names admit.

use vstd::prelude::*;

verus! {

use crate::errors::ClientError;
use crate::validate::spec_prefix_valid;

/// Whether a phrase passes BIP39 validation: twenty-four words of the
/// English wordlist whose entropy checksum matches; a pure function of
/// the phrase.
pub uninterp spec fn mnemonic_ok(phrase: Seq<char>) -> bool;

/// The 64-byte BIP39 seed stretched from a valid phrase with an empty
/// passphrase; a pure function of the phrase.
pub uninterp spec fn seed_of(phrase: Seq<char>) -> Seq<u8>;

/// Whether a derivation path string is syntactically well-formed.
pub uninterp spec fn path_parses(path: Seq<char>) -> bool;

/// Whether BIP32 derivation succeeds for a seed and a parsed path: the
/// master-key construction accepts the seed's length and every child
/// tweak along the path lands on a valid scalar; a pure function of
/// both. On a 64-byte seed it fails only with negligible probability.
pub uninterp spec fn derive_ok(seed: Seq<u8>, path: Seq<char>) -> bool;

/// The compressed (33-byte SEC1) public key of the BIP32 child key at
/// `path` under `seed`; a pure function of both.
pub uninterp spec fn pubkey_of(seed: Seq<u8>, path: Seq<char>) -> Seq<u8>;

/// The raw 32-byte private scalar of the BIP32 child key at `path` under
/// `seed`; a pure function of both.
pub uninterp spec fn privkey_of(seed: Seq<u8>, path: Seq<char>) -> Seq<u8>;

/// Whether a byte string decodes as a compressed secp256k1 curve point.
pub uninterp spec fn secp_pubkey_ok(pk: Seq<u8>) -> bool;

/// Whether a byte string is a usable secp256k1 private key: 32 bytes
/// holding a canonical nonzero scalar, exactly what cosmrs's
/// `SigningKey::from_slice` accepts; a pure function of the bytes.
pub uninterp spec fn scalar_ok(sk: Seq<u8>) -> bool;

/// The bech32 account address of a public key under a prefix:
/// the RIPEMD160-of-SHA256 key hash, bech32-encoded; a pure function of
/// key bytes and prefix.
pub uninterp spec fn address_of(pk: Seq<u8>, prefix: Seq<char>) -> Seq<char>;

/// A derived keypair: the compressed public key and the raw private
/// scalar, both as plain bytes.
#[derive(Debug)]
pub struct Keypair {
    pub public_key: Vec<u8>,
    pub private_key: Vec<u8>,
}

/// Relies on bip32's `Mnemonic::new`, which decides success: it accepts
/// exactly the twenty-four-word English phrases whose entropy checksum
/// matches; and on `Mnemonic::to_seed` (PBKDF2 stretching with an empty
/// passphrase, a pure function of the phrase yielding 64 bytes).
#[verifier::external_body]
fn mnemonic_to_seed(phrase: &str) -> (res: Result<Vec<u8>, ClientError>)
    ensures
        res is Ok <==> mnemonic_ok(phrase@),
        res matches Ok(s) ==> s@ == seed_of(phrase@) && s@.len() == 64,
        res matches Err(e) ==> e == ClientError::InvalidMnemonic,
{
    match bip32::Mnemonic::new(phrase, Default::default()) {
        Ok(m) => Ok(m.to_seed("").as_bytes().to_vec()),
        Err(_) => Err(ClientError::InvalidMnemonic),
    }
}

/// Relies on bip32's `DerivationPath` parser (deciding path syntax) and
/// `XPrv::derive_from_path` (BIP32 child derivation, a pure function of
/// seed and path that decides the rest of the success condition), and on
/// cosmrs's `SigningKey::public_key` / `PublicKey::to_bytes` for the
/// compressed public key bytes. A derived private key is by construction
/// a canonical nonzero scalar, and its public key a valid curve point.
#[verifier::external_body]
fn derive_keypair(seed: &Vec<u8>, path: &str) -> (res: Result<Keypair, ClientError>)
    ensures
        res is Ok <==> (path_parses(path@) && derive_ok(seed@, path@)),
        res matches Err(e) ==> e == ClientError::InvalidDerivationPath,
        res matches Ok(kp) ==> kp.public_key@ == pubkey_of(seed@, path@) && kp.private_key@
            == privkey_of(seed@, path@) && kp.public_key@.len() == 33 && kp.private_key@.len()
            == 32 && secp_pubkey_ok(kp.public_key@) && scalar_ok(kp.private_key@),
{
    let p: cosmrs::bip32::DerivationPath = path.parse().map_err(
        |_| ClientError::InvalidDerivationPath)?;
    let xprv = cosmrs::bip32::XPrv::derive_from_path(seed, &p).map_err(
        |_| ClientError::InvalidDerivationPath)?;
    let private_key = xprv.private_key().to_bytes().to_vec();
    let public_key = cosmrs::crypto::secp256k1::SigningKey::from(&xprv).public_key().to_bytes();
    Ok(Keypair { public_key, private_key })
}

/// Relies on tendermint's `PublicKey::from_raw_secp256k1` (point
/// decoding; cannot fail on a key the library derived) and on cosmrs's
/// `PublicKey::account_id`, which hashes the key and bech32-encodes it
/// under the prefix, failing exactly when the prefix is not lowercase
/// alphanumeric.
#[verifier::external_body]
fn account_address(pubkey: &Vec<u8>, prefix: &str) -> (res: Result<String, ClientError>)
    requires
        secp_pubkey_ok(pubkey@),
    ensures
        res is Ok <==> spec_prefix_valid(prefix@),
        res matches Ok(a) ==> a@ == address_of(pubkey@, prefix@),
        res matches Err(e) ==> e == ClientError::AddressEncodingError,
{
    let pk = cosmrs::tendermint::PublicKey::from_raw_secp256k1(pubkey).map(
        cosmrs::crypto::PublicKey::from).ok_or(ClientError::AddressEncodingError)?;
    pk.account_id(prefix).map(|a| a.to_string()).map_err(
        |_| ClientError::AddressEncodingError)
}

/// The durable form of an account: the mnemonic phrase is its sole
/// secret.
#[derive(Debug)]
pub struct SerializableAccount {
    pub mnemonic: String,
}

impl SerializableAccount {
    /// Derive the keypair at `derivation_path`.
    ///
    /// Succeeds exactly when the phrase passes checksum validation, the
    /// path parses, and BIP32 derivation goes through; it fails with
    /// `InvalidMnemonic` exactly when the phrase is bad, and with
    /// `InvalidDerivationPath` otherwise.
    pub fn get_keypair(&self, derivation_path: &str) -> (res: Result<Keypair, ClientError>)
        ensures
            res is Ok <==> mnemonic_ok(self.mnemonic@) && path_parses(derivation_path@)
                && derive_ok(seed_of(self.mnemonic@), derivation_path@),
            res == Err::<Keypair, ClientError>(ClientError::InvalidMnemonic) <==> !mnemonic_ok(
                self.mnemonic@,
            ),
            res matches Err(e) ==> e == ClientError::InvalidMnemonic || e
                == ClientError::InvalidDerivationPath,
            res matches Ok(kp) ==> {
                &&& kp.public_key@ == pubkey_of(seed_of(self.mnemonic@), derivation_path@)
                &&& kp.private_key@ == privkey_of(seed_of(self.mnemonic@), derivation_path@)
                &&& kp.public_key@.len() == 33
                &&& kp.private_key@.len() == 32
                &&& secp_pubkey_ok(kp.public_key@)
                &&& scalar_ok(kp.private_key@)
            },
    {
        let seed = match mnemonic_to_seed(self.mnemonic.as_str()) {
            Ok(s) => s,
            Err(e) => { return Err(e) },
        };
        derive_keypair(&seed, derivation_path)
    }
}

/// A flat account record carrying its previously computed address.
#[derive(Debug)]
pub struct Account {
    pub name: String,
    pub mnemonic: String,
    pub address: String,
}

impl Account {
    /// Derive the keypair at `derivation_path`; the stored address does
    /// not take part. Success is owed exactly as for
    /// `SerializableAccount::get_keypair`.
    pub fn get_keypair(&self, derivation_path: &str) -> (res: Result<Keypair, ClientError>)
        ensures
            res is Ok <==> mnemonic_ok(self.mnemonic@) && path_parses(derivation_path@)
                && derive_ok(seed_of(self.mnemonic@), derivation_path@),
            res == Err::<Keypair, ClientError>(ClientError::InvalidMnemonic) <==> !mnemonic_ok(
                self.mnemonic@,
            ),
            res matches Err(e) ==> e == ClientError::InvalidMnemonic || e
                == ClientError::InvalidDerivationPath,
            res matches Ok(kp) ==> {
                &&& kp.public_key@ == pubkey_of(seed_of(self.mnemonic@), derivation_path@)
                &&& kp.private_key@ == privkey_of(seed_of(self.mnemonic@), derivation_path@)
                &&& kp.public_key@.len() == 33
                &&& kp.private_key@.len() == 32
                &&& secp_pubkey_ok(kp.public_key@)
                &&& scalar_ok(kp.private_key@)
            },
    {
        let seed = match mnemonic_to_seed(self.mnemonic.as_str()) {
            Ok(s) => s,
            Err(e) => { return Err(e) },
        };
        derive_keypair(&seed, derivation_path)
    }
}

/// An account bound to a derivation path, with the address it derives
/// under a chain's prefix.
#[derive(Debug)]
pub struct AccountWithInfo {
    pub inner: SerializableAccount,
    pub derivation_path: String,
    pub address: String,
}

impl AccountWithInfo {
    /// Validate the account by deriving its keypair once, and record the
    /// address its public key encodes to under `prefix`.
    ///
    /// Succeeds exactly when the phrase, the path, the derivation and
    /// the prefix are all good; each failure is classified: a bad phrase
    /// is `InvalidMnemonic`, a bad path or failed derivation is
    /// `InvalidDerivationPath`, and a bad prefix is
    /// `AddressEncodingError`.
    pub fn new(account: SerializableAccount, derivation_path: &str, prefix: &str) -> (res:
        Result<AccountWithInfo, ClientError>)
        ensures
            res is Ok <==> mnemonic_ok(account.mnemonic@) && path_parses(derivation_path@)
                && derive_ok(seed_of(account.mnemonic@), derivation_path@)
                && spec_prefix_valid(prefix@),
            res == Err::<AccountWithInfo, ClientError>(ClientError::InvalidMnemonic) <==> !mnemonic_ok(
                account.mnemonic@,
            ),
            mnemonic_ok(account.mnemonic@) && !(path_parses(derivation_path@) && derive_ok(
                seed_of(account.mnemonic@),
                derivation_path@,
            )) ==> res == Err::<AccountWithInfo, ClientError>(
                ClientError::InvalidDerivationPath,
            ),
            mnemonic_ok(account.mnemonic@) && path_parses(derivation_path@) && derive_ok(
                seed_of(account.mnemonic@),
                derivation_path@,
            ) && !spec_prefix_valid(prefix@) ==> res == Err::<AccountWithInfo, ClientError>(
                ClientError::AddressEncodingError,
            ),
            res matches Ok(a) ==> {
                &&& a.inner.mnemonic@ == account.mnemonic@
                &&& a.derivation_path@ == derivation_path@
                &&& a.address@ == address_of(
                    pubkey_of(seed_of(account.mnemonic@), derivation_path@),
                    prefix@,
                )
            },
    {
        let kp = match account.get_keypair(derivation_path) {
            Ok(k) => k,
            Err(e) => { return Err(e) },
        };
        let address = match account_address(&kp.public_key, prefix) {
            Ok(a) => a,
            Err(e) => { return Err(e) },
        };
        Ok(AccountWithInfo {
            inner: account,
            derivation_path: String::from_str(derivation_path),
            address,
        })
    }

    /// Re-derive the keypair for this account's path. Success is owed
    /// exactly as for `SerializableAccount::get_keypair`.
    pub fn get_keypair(&self) -> (res: Result<Keypair, ClientError>)
        ensures
            res is Ok <==> mnemonic_ok(self.inner.mnemonic@) && path_parses(
                self.derivation_path@,
            ) && derive_ok(seed_of(self.inner.mnemonic@), self.derivation_path@),
            res == Err::<Keypair, ClientError>(ClientError::InvalidMnemonic) <==> !mnemonic_ok(
                self.inner.mnemonic@,
            ),
            res matches Err(e) ==> e == ClientError::InvalidMnemonic || e
                == ClientError::InvalidDerivationPath,
            res matches Ok(kp) ==> {
                &&& kp.public_key@ == pubkey_of(
                    seed_of(self.inner.mnemonic@),
                    self.derivation_path@,
                )
                &&& kp.private_key@ == privkey_of(
                    seed_of(self.inner.mnemonic@),
                    self.derivation_path@,
                )
                &&& kp.public_key@.len() == 33
                &&& kp.private_key@.len() == 32
                &&& secp_pubkey_ok(kp.public_key@)
                &&& scalar_ok(kp.private_key@)
            },
    {
        self.inner.get_keypair(self.derivation_path.as_str())
    }
}

} // verus!
