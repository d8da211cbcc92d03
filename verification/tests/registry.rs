use aquarium::account::SerializableAccount;
use aquarium::client::{Network, QueryClient, SigningClient};
use aquarium::config::Config;
use aquarium::env::Env;
use aquarium::numeric::Ratio;
use aquarium::refs::{ContractInstance, ContractRefs, NetworkSpecificRefs};

#[test]
fn new_refs_are_empty() {
    let refs = NetworkSpecificRefs::new();
    assert!(refs.get_code_ids("counter").is_none());
    assert!(refs.get_contract_instance("counter", "kujira1x").is_none());
    assert_eq!(ContractRefs::new().networks.len(), 0);
}

#[test]
fn code_ids_accumulate_in_order() {
    let mut refs = NetworkSpecificRefs::new();
    refs.add_code_id("counter", 7);
    refs.add_code_id("counter", 9);
    refs.add_code_id("oracle", 2);
    assert_eq!(refs.get_code_ids("counter").unwrap(), &vec![7, 9]);
    assert_eq!(refs.get_code_ids("oracle").unwrap(), &vec![2]);
    assert!(refs.get_code_ids("missing").is_none());
}

#[test]
fn instances_are_found_by_address() {
    let mut refs = NetworkSpecificRefs::new();
    refs.add_contract_instance("counter", ContractInstance::new(7, "kujira1aaa".to_string()));
    refs.add_contract_instance("counter", ContractInstance::new(9, "kujira1bbb".to_string()));
    let inst = refs.get_contract_instance("counter", "kujira1bbb").unwrap();
    assert_eq!(inst.code_id, 9);
    assert_eq!(inst.address, "kujira1bbb".to_string());
    assert!(refs.get_contract_instance("counter", "kujira1ccc").is_none());
    assert!(refs.get_contract_instance("oracle", "kujira1bbb").is_none());
}

#[test]
fn instance_new_has_no_attributes() {
    let inst = ContractInstance::new(4, "kujira1x".to_string());
    assert_eq!(inst.code_id, 4);
    assert_eq!(inst.attrs.len(), 0);
}

#[test]
fn stock_config_holds_three_networks() {
    let cfg = Config::default();
    assert_eq!(cfg.project, "Aquarium Project".to_string());
    assert_eq!(cfg.scripts_path, "scripts".to_string());
    assert_eq!(cfg.hd_path, "m/44'/118'/0'/0/0".to_string());
    assert_eq!(cfg.default_network, Some("devnet".to_string()));
    assert_eq!(cfg.networks.len(), 3);
    assert_eq!(cfg.networks[0].0, "devnet".to_string());
    assert_eq!(cfg.networks[0].1.chain_id, "harpoon-4".to_string());
    assert_eq!(cfg.networks[2].0, "mainnet".to_string());
    assert_eq!(cfg.networks[2].1.chain_id, "kaiyo-1".to_string());
    assert_eq!(cfg.networks[0].1.gas_price, Ratio::new(125, 100000));
    assert_eq!(cfg.networks[0].1.gas_adjustment, Ratio::new(125, 100));
    assert_eq!(cfg.networks[0].1.gas_denom, "ukuji".to_string());
    assert_eq!(cfg.networks[0].1.account_prefix, "kujira".to_string());
    assert_eq!(cfg.accounts.len(), 0);
}

#[test]
fn network_selection_prefers_request_then_default_then_first() {
    let mut cfg = Config::default();
    assert_eq!(cfg.select_network(&Some("mainnet".to_string())), Some(2));
    assert_eq!(cfg.select_network(&None), Some(0)); // the default, devnet
    assert_eq!(cfg.select_network(&Some("nowhere".to_string())), None);
    cfg.default_network = None;
    assert_eq!(cfg.select_network(&None), Some(0)); // first entry
    cfg.networks.clear();
    assert_eq!(cfg.select_network(&None), None);
}

#[test]
fn account_selection_prefers_request_then_first() {
    let mut cfg = Config::default();
    assert_eq!(cfg.select_account(&None), None); // no accounts configured
    cfg.accounts.push((
        "deployer".to_string(),
        SerializableAccount {
            mnemonic: "m1".to_string(),
        },
    ));
    cfg.accounts.push((
        "tester".to_string(),
        SerializableAccount {
            mnemonic: "m2".to_string(),
        },
    ));
    assert_eq!(cfg.select_account(&None), Some(0));
    assert_eq!(cfg.select_account(&Some("tester".to_string())), Some(1));
    assert_eq!(cfg.select_account(&Some("nobody".to_string())), None);
}

fn network() -> Network {
    Network {
        chain_id: "harpoon-4".to_string(),
        lcd_addr: "http://localhost:1317".to_string(),
        gas_price: Ratio::new(125, 100000),
        gas_adjustment: Ratio::new(125, 100),
        gas_denom: "ukuji".to_string(),
        account_prefix: "cosmos".to_string(),
    }
}

#[test]
fn clients_carry_their_network() {
    let qc = QueryClient::new(network());
    assert_eq!(qc.network.chain_id, "harpoon-4".to_string());
    let account = aquarium::account::AccountWithInfo::new(
        SerializableAccount {
            mnemonic: "abandon abandon abandon abandon abandon abandon abandon abandon abandon abandon abandon abandon abandon abandon abandon abandon abandon abandon abandon abandon abandon abandon abandon art".to_string(),
        },
        "m/44'/118'/0'/0/0",
        "cosmos",
    )
    .unwrap();
    let sc = qc.into_signing(account);
    assert_eq!(sc.network.chain_id, "harpoon-4".to_string());
    assert_eq!(
        sc.get_account().address,
        "cosmos1r5v5srda7xfth3hn2s26txvrcrntldjumt8mhl".to_string()
    );
    let qc2 = sc.into_query();
    assert_eq!(qc2.network.lcd_addr, "http://localhost:1317".to_string());
}

#[test]
fn env_keeps_its_parts() {
    let account = aquarium::account::AccountWithInfo::new(
        SerializableAccount {
            mnemonic: "abandon abandon abandon abandon abandon abandon abandon abandon abandon abandon abandon abandon abandon abandon abandon abandon abandon abandon abandon abandon abandon abandon abandon art".to_string(),
        },
        "m/44'/118'/0'/0/0",
        "cosmos",
    )
    .unwrap();
    let env = match Env::new(
        "devnet".to_string(),
        QueryClient::new(network()),
        SigningClient::new(network(), account),
        NetworkSpecificRefs::new(),
        "contracts.json".to_string(),
    ) {
        Ok(e) => e,
        Err(_) => panic!("environment construction cannot fail"),
    };
    assert_eq!(env.network, "devnet".to_string());
    assert_eq!(env.refs_path, "contracts.json".to_string());
    assert_eq!(env.refs.contracts.len(), 0);
}

#[test]
fn request_paths_are_fixed() {
    assert_eq!(
        aquarium::client::latest_block_path(),
        "cosmos/base/tendermint/v1beta1/blocks/latest".to_string()
    );
    assert_eq!(
        aquarium::client::account_path("cosmos1abc"),
        "cosmos/auth/v1beta1/accounts/cosmos1abc".to_string()
    );
    assert_eq!(
        aquarium::client::tx_lookup_path("CAFE"),
        "cosmos/tx/v1beta1/txs/CAFE".to_string()
    );
    assert_eq!(
        aquarium::client::simulate_path(),
        "cosmos/tx/v1beta1/simulate".to_string()
    );
    assert_eq!(
        aquarium::client::broadcast_path(),
        "cosmos/tx/v1beta1/txs".to_string()
    );
}

#[test]
fn query_data_extracts_the_data_field() {
    let resp = aquarium::json::JsonValue::Obj(vec![(
        "data".to_string(),
        aquarium::json::JsonValue::Str("payload".to_string()),
    )]);
    let data = QueryClient::query_data(&resp).unwrap();
    assert_eq!(data.as_str().unwrap(), &"payload".to_string());
    let empty = aquarium::json::JsonValue::Obj(vec![]);
    assert_eq!(
        QueryClient::query_data(&empty).unwrap_err(),
        aquarium::errors::ClientError::QueryError
    );
}
