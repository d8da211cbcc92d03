use aquarium::account::{AccountWithInfo, SerializableAccount};
use aquarium::errors::ClientError;

const MNEMONIC: &str = "abandon abandon abandon abandon abandon abandon abandon abandon abandon abandon abandon abandon abandon abandon abandon abandon abandon abandon abandon abandon abandon abandon abandon art";
const HD_PATH: &str = "m/44'/118'/0'/0/0";

fn hex_bytes(h: &str) -> Vec<u8> {
    let chars: Vec<u8> = h.bytes().collect();
    chars
        .chunks(2)
        .map(|pair| {
            let hi = (pair[0] as char).to_digit(16).unwrap() as u8;
            let lo = (pair[1] as char).to_digit(16).unwrap() as u8;
            hi * 16 + lo
        })
        .collect()
}

#[test]
fn known_mnemonic_derives_known_address() {
    let account = SerializableAccount {
        mnemonic: MNEMONIC.to_string(),
    };
    let info = AccountWithInfo::new(account, HD_PATH, "cosmos").unwrap();
    assert_eq!(
        info.address,
        "cosmos1r5v5srda7xfth3hn2s26txvrcrntldjumt8mhl".to_string()
    );
    assert_eq!(info.derivation_path, HD_PATH.to_string());
}

#[test]
fn known_mnemonic_derives_known_keypair() {
    let account = SerializableAccount {
        mnemonic: MNEMONIC.to_string(),
    };
    let kp = account.get_keypair(HD_PATH).unwrap();
    assert_eq!(
        kp.public_key,
        hex_bytes("02ba66a84cf7839af172a13e7fc9f5e7008cb8bca1585f8f3bafb3039eda3c1fdd")
    );
    assert_eq!(
        kp.private_key,
        hex_bytes("8088c2ed2149c34f6d6533b774da4e1692eb5cb426fdbaef6898eeda489630b7")
    );
}

#[test]
fn address_prefix_changes_encoding_only() {
    let account = SerializableAccount {
        mnemonic: MNEMONIC.to_string(),
    };
    let info = AccountWithInfo::new(account, HD_PATH, "kujira").unwrap();
    assert_eq!(
        info.address,
        "kujira1r5v5srda7xfth3hn2s26txvrcrntldju2r9r64".to_string()
    );
}

#[test]
fn derivation_is_repeatable() {
    let account = SerializableAccount {
        mnemonic: MNEMONIC.to_string(),
    };
    let first = account.get_keypair(HD_PATH).unwrap();
    let second = account.get_keypair(HD_PATH).unwrap();
    assert_eq!(first.public_key, second.public_key);
    assert_eq!(first.private_key, second.private_key);
}

#[test]
fn bad_checksum_is_invalid_mnemonic() {
    let account = SerializableAccount {
        mnemonic: "abandon abandon abandon abandon abandon abandon abandon abandon abandon abandon abandon abandon".to_string(),
    };
    assert_eq!(
        account.get_keypair(HD_PATH).unwrap_err(),
        ClientError::InvalidMnemonic
    );
}

#[test]
fn malformed_path_is_invalid_derivation_path() {
    let account = SerializableAccount {
        mnemonic: MNEMONIC.to_string(),
    };
    assert_eq!(
        account.get_keypair("not a path").unwrap_err(),
        ClientError::InvalidDerivationPath
    );
}

#[test]
fn uppercase_prefix_is_address_encoding_error() {
    let account = SerializableAccount {
        mnemonic: MNEMONIC.to_string(),
    };
    assert_eq!(
        AccountWithInfo::new(account, HD_PATH, "Cosmos").unwrap_err(),
        ClientError::AddressEncodingError
    );
}

#[test]
fn flat_account_derives_the_same_keys() {
    let flat = aquarium::account::Account {
        name: "deployer".to_string(),
        mnemonic: MNEMONIC.to_string(),
        address: "cosmos1r5v5srda7xfth3hn2s26txvrcrntldjumt8mhl".to_string(),
    };
    let sa = SerializableAccount {
        mnemonic: MNEMONIC.to_string(),
    };
    let a = flat.get_keypair(HD_PATH).unwrap();
    let b = sa.get_keypair(HD_PATH).unwrap();
    assert_eq!(a.public_key, b.public_key);
    assert_eq!(a.private_key, b.private_key);
}
