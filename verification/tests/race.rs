use aquarium::account::{AccountWithInfo, SerializableAccount};
use aquarium::client::{Network, SigningClient};
use aquarium::msg::Msg;
use aquarium::numeric::Ratio;

const MNEMONIC: &str = "abandon abandon abandon abandon abandon abandon abandon abandon abandon abandon abandon abandon abandon abandon abandon abandon abandon abandon abandon abandon abandon abandon abandon art";

/// A chain double that enforces strictly increasing sequence numbers:
/// a broadcast is accepted only if it carries exactly the expected
/// sequence, which then advances.
struct SequenceChain {
    expected: u64,
}

impl SequenceChain {
    fn submit(&mut self, tx_sequence: u64) -> bool {
        if tx_sequence == self.expected {
            self.expected += 1;
            true
        } else {
            false
        }
    }
}

fn client() -> SigningClient {
    let network = Network {
        chain_id: "harpoon-4".to_string(),
        lcd_addr: "http://localhost:1317".to_string(),
        gas_price: Ratio::new(125, 100000),
        gas_adjustment: Ratio::new(125, 100),
        gas_denom: "ukuji".to_string(),
        account_prefix: "cosmos".to_string(),
    };
    let account = AccountWithInfo::new(
        SerializableAccount {
            mnemonic: MNEMONIC.to_string(),
        },
        "m/44'/118'/0'/0/0",
        "cosmos",
    )
    .unwrap();
    SigningClient::new(network, account)
}

#[test]
fn concurrent_flows_sharing_a_sequence_race() {
    // Two flows for the same account each fetch the account state before
    // either broadcasts: both see sequence 7.
    let mut chain = SequenceChain { expected: 7 };
    let flow_a = client();
    let flow_b = client();
    let fetched_sequence = 7u64;

    let messages = vec![Msg::StoreCode {
        bytecode: vec![1, 2, 3],
    }];
    let request_a = flow_a
        .broadcast_request(&messages, &None, 100, 4, fetched_sequence, 90000)
        .unwrap();
    let request_b = flow_b
        .broadcast_request(&messages, &None, 100, 4, fetched_sequence, 90000)
        .unwrap();
    // Both flows built a complete, signed broadcast carrying the same
    // sequence — they even carry identical bytes.
    let bytes_a = request_a.get("tx_bytes").unwrap().as_str().unwrap().clone();
    let bytes_b = request_b.get("tx_bytes").unwrap().as_str().unwrap().clone();
    assert_eq!(bytes_a, bytes_b);

    // Whichever the chain processes first is accepted; the other is
    // rejected with a sequence mismatch.
    let first_accepted = chain.submit(fetched_sequence);
    let second_accepted = chain.submit(fetched_sequence);
    assert!(first_accepted);
    assert!(!second_accepted);
    assert_eq!(chain.expected, 8);

    // A flow that re-fetches the account state after the commit gets the
    // advanced sequence and succeeds.
    let retried = chain.submit(8);
    assert!(retried);
}
