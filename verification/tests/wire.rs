use aquarium::account::{AccountWithInfo, SerializableAccount};
use aquarium::client::{Network, QueryClient, SigningClient};
use aquarium::msg::{encode_message, Coin, Msg};
use aquarium::numeric::Ratio;
use base64::Engine;

const MNEMONIC: &str = "abandon abandon abandon abandon abandon abandon abandon abandon abandon abandon abandon abandon abandon abandon abandon abandon abandon abandon abandon abandon abandon abandon abandon art";
const HD_PATH: &str = "m/44'/118'/0'/0/0";
const ADDRESS: &str = "cosmos1r5v5srda7xfth3hn2s26txvrcrntldjumt8mhl";

fn network() -> Network {
    Network {
        chain_id: "harpoon-4".to_string(),
        lcd_addr: "http://localhost:1317".to_string(),
        gas_price: Ratio::new(125, 100000),
        gas_adjustment: Ratio::new(125, 100),
        gas_denom: "ukuji".to_string(),
        account_prefix: "cosmos".to_string(),
    }
}

fn signing_client() -> SigningClient {
    let account = SerializableAccount {
        mnemonic: MNEMONIC.to_string(),
    };
    let info = AccountWithInfo::new(account, HD_PATH, "cosmos").unwrap();
    SigningClient::new(network(), info)
}

fn reference_keys() -> (
    cosmrs::crypto::PublicKey,
    cosmrs::crypto::secp256k1::SigningKey,
) {
    let m = bip32::Mnemonic::new(MNEMONIC, Default::default()).unwrap();
    let seed = m.to_seed("");
    let sk = cosmrs::crypto::secp256k1::SigningKey::derive_from_path(
        &seed,
        &HD_PATH.parse().unwrap(),
    )
    .unwrap();
    let pk = sk.public_key();
    (pk, sk)
}

fn tx_bytes_field(request: &aquarium::json::JsonValue) -> String {
    request
        .get("tx_bytes")
        .unwrap()
        .as_str()
        .unwrap()
        .clone()
}

#[test]
fn store_code_encoding_matches_reference() {
    let bytecode = vec![0u8, 1, 2, 3, 77];
    let got = encode_message(
        ADDRESS,
        &Msg::StoreCode {
            bytecode: bytecode.clone(),
        },
    )
    .unwrap();
    let expected = cosmrs::tx::Msg::to_any(&cosmrs::cosmwasm::MsgStoreCode {
        sender: ADDRESS.parse().unwrap(),
        wasm_byte_code: bytecode,
        instantiate_permission: None,
    })
    .unwrap();
    assert_eq!(got.type_url, expected.type_url);
    assert_eq!(got.value, expected.value);
}

#[test]
fn execute_encoding_matches_reference() {
    let contract = "cosmos19dyl0uyzes4k23lscla02n06fc22h4uqsdwq6z";
    let payload = br#"{"increment":{}}"#.to_vec();
    let got = encode_message(
        ADDRESS,
        &Msg::Execute {
            contract: contract.to_string(),
            payload: payload.clone(),
            funds: vec![Coin {
                denom: "ukuji".to_string(),
                amount: 25,
            }],
        },
    )
    .unwrap();
    let expected = cosmrs::tx::Msg::to_any(&cosmrs::cosmwasm::MsgExecuteContract {
        sender: ADDRESS.parse().unwrap(),
        contract: contract.parse().unwrap(),
        msg: payload,
        funds: vec![cosmrs::Coin {
            denom: "ukuji".parse().unwrap(),
            amount: 25,
        }],
    })
    .unwrap();
    assert_eq!(got.type_url, expected.type_url);
    assert_eq!(got.value, expected.value);
}

#[test]
fn bad_sender_is_rejected_before_encoding() {
    let got = encode_message("not-bech32", &Msg::StoreCode { bytecode: vec![] });
    assert_eq!(
        got.unwrap_err(),
        aquarium::errors::ClientError::InvalidAddress
    );
}

#[test]
fn simulate_request_matches_reference() {
    let client = signing_client();
    let bytecode = vec![9u8, 9, 9];
    let messages = vec![Msg::StoreCode {
        bytecode: bytecode.clone(),
    }];
    let request = client
        .estimate_gas_request(&messages, &Some("hello".to_string()), 1000, 5, 7)
        .unwrap();
    let got = tx_bytes_field(&request);

    let (pk, sk) = reference_keys();
    let any = cosmrs::tx::Msg::to_any(&cosmrs::cosmwasm::MsgStoreCode {
        sender: ADDRESS.parse().unwrap(),
        wasm_byte_code: bytecode,
        instantiate_permission: None,
    })
    .unwrap();
    let body = cosmrs::tx::Body::new(vec![any], "hello", 1100u32);
    let auth = cosmrs::tx::SignerInfo {
        public_key: Some(pk.into()),
        mode_info: cosmrs::tx::ModeInfo::Single(cosmrs::tx::mode_info::Single {
            mode: cosmrs::tx::SignMode::Unspecified,
        }),
        sequence: 7,
    }
    .auth_info(cosmrs::tx::Fee {
        amount: vec![],
        gas_limit: 0,
        payer: None,
        granter: None,
    });
    let chain: cosmrs::tendermint::chain::Id = "harpoon-4".parse().unwrap();
    let doc = cosmrs::tx::SignDoc::new(&body, &auth, &chain, 5).unwrap();
    let expected = base64::engine::general_purpose::STANDARD
        .encode(doc.sign(&sk).unwrap().to_bytes().unwrap());
    assert_eq!(got, expected);
}

#[test]
fn broadcast_request_matches_reference() {
    let client = signing_client();
    let messages = vec![Msg::Execute {
        contract: "cosmos19dyl0uyzes4k23lscla02n06fc22h4uqsdwq6z".to_string(),
        payload: br#"{"poke":{}}"#.to_vec(),
        funds: vec![],
    }];
    let request = client
        .broadcast_request(&messages, &None, 2000, 4, 11, 125000)
        .unwrap();
    let got = tx_bytes_field(&request);
    let mode = request.get("mode").unwrap().as_str().unwrap().clone();
    assert_eq!(mode, "BROADCAST_MODE_SYNC".to_string());

    let (pk, sk) = reference_keys();
    let any = cosmrs::tx::Msg::to_any(&cosmrs::cosmwasm::MsgExecuteContract {
        sender: ADDRESS.parse().unwrap(),
        contract: "cosmos19dyl0uyzes4k23lscla02n06fc22h4uqsdwq6z".parse().unwrap(),
        msg: br#"{"poke":{}}"#.to_vec(),
        funds: vec![],
    })
    .unwrap();
    let body = cosmrs::tx::Body::new(vec![any], "", 2100u32);
    // fee: ceil(125000 * 0.00125) = 157
    let fee = cosmrs::tx::Fee::from_amount_and_gas(
        cosmrs::Coin {
            denom: "ukuji".parse().unwrap(),
            amount: 157,
        },
        125000u64,
    );
    let auth = cosmrs::tx::SignerInfo::single_direct(Some(pk), 11).auth_info(fee);
    let chain: cosmrs::tendermint::chain::Id = "harpoon-4".parse().unwrap();
    let doc = cosmrs::tx::SignDoc::new(&body, &auth, &chain, 4).unwrap();
    let expected = base64::engine::general_purpose::STANDARD
        .encode(doc.sign(&sk).unwrap().to_bytes().unwrap());
    assert_eq!(got, expected);
}

#[test]
fn signing_is_deterministic_across_calls() {
    let client = signing_client();
    let messages = vec![Msg::StoreCode {
        bytecode: vec![1, 2, 3],
    }];
    let memo = Some("same memo".to_string());
    let first = client
        .estimate_gas_request(&messages, &memo, 1234, 8, 3)
        .unwrap();
    let second = client
        .estimate_gas_request(&messages, &memo, 1234, 8, 3)
        .unwrap();
    assert_eq!(tx_bytes_field(&first), tx_bytes_field(&second));

    let b1 = client
        .broadcast_request(&messages, &memo, 1234, 8, 3, 90000)
        .unwrap();
    let b2 = client
        .broadcast_request(&messages, &memo, 1234, 8, 3, 90000)
        .unwrap();
    assert_eq!(tx_bytes_field(&b1), tx_bytes_field(&b2));
}

#[test]
fn simulate_request_at_large_height_matches_reference() {
    let client = signing_client();
    let messages = vec![Msg::StoreCode {
        bytecode: vec![7u8],
    }];
    // a block height past the 32-bit range still signs correctly
    let request = client
        .estimate_gas_request(&messages, &None, 5_000_000_000, 1, 2)
        .unwrap();
    let got = tx_bytes_field(&request);

    let (pk, sk) = reference_keys();
    let any = cosmrs::tx::Msg::to_any(&cosmrs::cosmwasm::MsgStoreCode {
        sender: ADDRESS.parse().unwrap(),
        wasm_byte_code: vec![7u8],
        instantiate_permission: None,
    })
    .unwrap();
    let height = cosmrs::tendermint::block::Height::try_from(5_000_000_100u64).unwrap();
    let body = cosmrs::tx::Body::new(vec![any], "", height);
    let auth = cosmrs::tx::SignerInfo {
        public_key: Some(pk.into()),
        mode_info: cosmrs::tx::ModeInfo::Single(cosmrs::tx::mode_info::Single {
            mode: cosmrs::tx::SignMode::Unspecified,
        }),
        sequence: 2,
    }
    .auth_info(cosmrs::tx::Fee {
        amount: vec![],
        gas_limit: 0,
        payer: None,
        granter: None,
    });
    let chain: cosmrs::tendermint::chain::Id = "harpoon-4".parse().unwrap();
    let doc = cosmrs::tx::SignDoc::new(&body, &auth, &chain, 1).unwrap();
    let expected = base64::engine::general_purpose::STANDARD
        .encode(doc.sign(&sk).unwrap().to_bytes().unwrap());
    assert_eq!(got, expected);
}

#[test]
fn invalid_chain_id_is_rejected() {
    let mut net = network();
    net.chain_id = "bad chain id!".to_string();
    let account = SerializableAccount {
        mnemonic: MNEMONIC.to_string(),
    };
    let info = AccountWithInfo::new(account, HD_PATH, "cosmos").unwrap();
    let client = SigningClient::new(net, info);
    let got = client.estimate_gas_request(
        &vec![Msg::StoreCode { bytecode: vec![] }],
        &None,
        10,
        0,
        0,
    );
    assert_eq!(got.unwrap_err(), aquarium::errors::ClientError::InvalidChainId);
}

#[test]
fn smart_query_path_encodes_payload() {
    let qc = QueryClient::new(network());
    let path = qc.smart_query_path(
        "kujira1contract",
        &br#"{"balance":{}}"#.to_vec(),
    );
    let encoded = base64::engine::general_purpose::STANDARD.encode(br#"{"balance":{}}"#);
    assert_eq!(
        path,
        format!("cosmwasm/wasm/v1/contract/kujira1contract/smart/{}", encoded)
    );
    assert_eq!(
        path,
        "cosmwasm/wasm/v1/contract/kujira1contract/smart/eyJiYWxhbmNlIjp7fX0=".to_string()
    );
}

#[test]
fn gas_estimation_reads_simulation_response() {
    let client = signing_client();
    let response = aquarium::json::JsonValue::Obj(vec![(
        "gas_info".to_string(),
        aquarium::json::JsonValue::Obj(vec![(
            "gas_used".to_string(),
            aquarium::json::JsonValue::Str("100000".to_string()),
        )]),
    )]);
    // 100000 * 1.25 = 125000 exactly
    assert_eq!(client.estimate_gas_result(&response), Ok(125000));
}

#[test]
fn instantiate_encoding_matches_reference() {
    let admin = "cosmos1r5v5srda7xfth3hn2s26txvrcrntldjumt8mhl";
    let got = encode_message(
        ADDRESS,
        &Msg::Instantiate {
            code_id: 42,
            payload: br#"{"count":0}"#.to_vec(),
            funds: vec![Coin {
                denom: "ukuji".to_string(),
                amount: 5,
            }],
            label: Some("counter".to_string()),
            admin: Some(admin.to_string()),
        },
    )
    .unwrap();
    let expected = cosmrs::tx::Msg::to_any(&cosmrs::cosmwasm::MsgInstantiateContract {
        sender: ADDRESS.parse().unwrap(),
        admin: Some(admin.parse().unwrap()),
        code_id: 42,
        label: Some("counter".to_string()),
        msg: br#"{"count":0}"#.to_vec(),
        funds: vec![cosmrs::Coin {
            denom: "ukuji".parse().unwrap(),
            amount: 5,
        }],
    })
    .unwrap();
    assert_eq!(got.type_url, expected.type_url);
    assert_eq!(got.value, expected.value);
}

#[test]
fn migrate_encoding_matches_reference() {
    let contract = "cosmos19dyl0uyzes4k23lscla02n06fc22h4uqsdwq6z";
    let got = encode_message(
        ADDRESS,
        &Msg::Migrate {
            contract: contract.to_string(),
            code_id: 9,
            payload: br#"{}"#.to_vec(),
        },
    )
    .unwrap();
    let expected = cosmrs::tx::Msg::to_any(&cosmrs::cosmwasm::MsgMigrateContract {
        sender: ADDRESS.parse().unwrap(),
        contract: contract.parse().unwrap(),
        code_id: 9,
        msg: br#"{}"#.to_vec(),
    })
    .unwrap();
    assert_eq!(got.type_url, expected.type_url);
    assert_eq!(got.value, expected.value);
}

#[test]
fn raw_message_passes_through() {
    let got = encode_message(
        ADDRESS,
        &Msg::Raw {
            type_url: "/custom.v1.MsgCustom".to_string(),
            value: vec![1, 2, 3],
        },
    )
    .unwrap();
    assert_eq!(got.type_url, "/custom.v1.MsgCustom".to_string());
    assert_eq!(got.value, vec![1, 2, 3]);
}

#[test]
fn invalid_fund_denom_is_rejected() {
    let got = encode_message(
        ADDRESS,
        &Msg::Execute {
            contract: ADDRESS.to_string(),
            payload: vec![],
            funds: vec![Coin {
                denom: "x".to_string(),
                amount: 1,
            }],
        },
    );
    assert_eq!(got.unwrap_err(), aquarium::errors::ClientError::InvalidDenom);
}
