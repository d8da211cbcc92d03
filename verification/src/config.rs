//! Project configuration: networks, accounts, and the selection rules
//! that pick which of them a task runs against.
//!
//! Loading and saving the configuration file is an outside concern; the
//! library holds the configuration as plain data and decides, verified,
//! which network and account an invocation resolves to.

use vstd::prelude::*;

verus! {

use crate::account::SerializableAccount;
use crate::assoc::{assoc_find, key_index};
use crate::client::Network;
use crate::msg::opt_str_view;
use crate::numeric::Ratio;

/// A project's configuration. The network and account lists are maps:
/// each name is bound at most once (see `Config::wf`).
pub struct Config {
    pub project: String,
    pub scripts_path: String,
    pub hd_path: String,
    pub default_network: Option<String>,
    pub networks: Vec<(String, Network)>,
    pub accounts: Vec<(String, SerializableAccount)>,
}

impl Network {
    /// A field-for-field copy.
    pub fn duplicate(&self) -> (res: Network)
        ensures
            res == *self,
    {
        Network {
            chain_id: self.chain_id.clone(),
            lcd_addr: self.lcd_addr.clone(),
            gas_price: self.gas_price,
            gas_adjustment: self.gas_adjustment,
            gas_denom: self.gas_denom.clone(),
            account_prefix: self.account_prefix.clone(),
        }
    }
}

/// The gas price every stock network starts with: 0.00125.
pub open spec fn spec_default_gas_price() -> Ratio {
    Ratio { num: 125, den: 100000 }
}

/// The gas adjustment every stock network starts with: 1.25.
pub open spec fn spec_default_gas_adjustment() -> Ratio {
    Ratio { num: 125, den: 100 }
}

fn stock_network(chain_id: &str, lcd_addr: &str) -> (res: Network)
    ensures
        res.chain_id@ == chain_id@,
        res.lcd_addr@ == lcd_addr@,
        res.gas_price == spec_default_gas_price(),
        res.gas_adjustment == spec_default_gas_adjustment(),
        res.gas_denom@ == "ukuji"@,
        res.account_prefix@ == "kujira"@,
        res.wf(),
{
    Network {
        chain_id: String::from_str(chain_id),
        lcd_addr: String::from_str(lcd_addr),
        gas_price: Ratio::new(125, 100000),
        gas_adjustment: Ratio::new(125, 100),
        gas_denom: String::from_str("ukuji"),
        account_prefix: String::from_str("kujira"),
    }
}

impl Default for Config {
    /// The stock configuration: three networks against the same chain
    /// family, no accounts, the standard Cosmos derivation path, and
    /// `devnet` as the default target.
    fn default() -> (res: Config)
        ensures
            res.project@ == "Aquarium Project"@,
            res.scripts_path@ == "scripts"@,
            res.hd_path@ == "m/44'/118'/0'/0/0"@,
            res.default_network matches Some(d) && d@ == "devnet"@,
            res.accounts@.len() == 0,
            res.networks@.len() == 3,
            res.networks@[0].0@ == "devnet"@,
            res.networks@[0].1.chain_id@ == "harpoon-4"@,
            res.networks@[0].1.lcd_addr@ == "http://localhost:1317"@,
            res.networks@[1].0@ == "testnet"@,
            res.networks@[1].1.chain_id@ == "harpoon-4"@,
            res.networks@[1].1.lcd_addr@ == "https://test-lcd-kujira.mintthemoon.xyz"@,
            res.networks@[2].0@ == "mainnet"@,
            res.networks@[2].1.chain_id@ == "kaiyo-1"@,
            res.networks@[2].1.lcd_addr@ == "https://lcd-kujira.mintthemoon.xyz"@,
            forall|i: int| 0 <= i < 3 ==> {
                &&& (#[trigger] res.networks@[i]).1.gas_price == spec_default_gas_price()
                &&& res.networks@[i].1.gas_adjustment == spec_default_gas_adjustment()
                &&& res.networks@[i].1.gas_denom@ == "ukuji"@
                &&& res.networks@[i].1.account_prefix@ == "kujira"@
                &&& res.networks@[i].1.wf()
            },
            res.wf(),
    {
        proof {
            reveal_strlit("devnet");
            reveal_strlit("testnet");
            reveal_strlit("mainnet");
            assert("devnet"@.len() == 6);
            assert("testnet"@.len() == 7);
            assert("mainnet"@.len() == 7);
            assert("testnet"@[0] == 't');
            assert("mainnet"@[0] == 'm');
            assert("testnet"@ != "mainnet"@);
        }
        let mut networks: Vec<(String, Network)> = Vec::new();
        networks.push((String::from_str("devnet"), stock_network(
            "harpoon-4",
            "http://localhost:1317",
        )));
        networks.push((String::from_str("testnet"), stock_network(
            "harpoon-4",
            "https://test-lcd-kujira.mintthemoon.xyz",
        )));
        networks.push((String::from_str("mainnet"), stock_network(
            "kaiyo-1",
            "https://lcd-kujira.mintthemoon.xyz",
        )));
        Config {
            project: String::from_str("Aquarium Project"),
            scripts_path: String::from_str("scripts"),
            hd_path: String::from_str("m/44'/118'/0'/0/0"),
            default_network: Some(String::from_str("devnet")),
            networks,
            accounts: Vec::new(),
        }
    }
}

impl Config {
    /// Each network name and each account name is bound at most once.
    pub open spec fn wf(self) -> bool {
        &&& forall|i: int, j: int| 0 <= i < j < self.networks@.len() ==> (
        #[trigger] self.networks@[i]).0@ != (#[trigger] self.networks@[j]).0@
        &&& forall|i: int, j: int| 0 <= i < j < self.accounts@.len() ==> (
        #[trigger] self.accounts@[i]).0@ != (#[trigger] self.accounts@[j]).0@
    }

    /// Which network entry an invocation resolves to: the requested
    /// name, else the configured default, else the first entry.
    pub open spec fn spec_network_selection(self, requested: Option<Seq<char>>) -> Option<
        int,
    > {
        match requested {
            Some(n) => key_index(self.networks@, n),
            None => match self.default_network {
                Some(d) => key_index(self.networks@, d@),
                None => if self.networks@.len() == 0 {
                    None
                } else {
                    key_index(self.networks@, self.networks@[0].0@)
                },
            },
        }
    }

    /// Which account entry an invocation resolves to: the requested
    /// name, else the first entry.
    pub open spec fn spec_account_selection(self, requested: Option<Seq<char>>) -> Option<
        int,
    > {
        match requested {
            Some(n) => key_index(self.accounts@, n),
            None => if self.accounts@.len() == 0 {
                None
            } else {
                key_index(self.accounts@, self.accounts@[0].0@)
            },
        }
    }

    /// Resolve the target network of an invocation; `None` means no
    /// network is configured under the resolved name.
    pub fn select_network(&self, requested: &Option<String>) -> (res: Option<usize>)
        ensures
            match res {
                Some(i) => self.spec_network_selection(opt_str_view(*requested)) == Some(
                    i as int,
                ),
                None => self.spec_network_selection(opt_str_view(*requested)) is None,
            },
    {
        let name: &String = match requested {
            Some(n) => n,
            None => match &self.default_network {
                Some(d) => d,
                None => {
                    if self.networks.len() == 0 {
                        return None;
                    }
                    &self.networks[0].0
                },
            },
        };
        assoc_find(&self.networks, name.as_str())
    }

    /// Resolve the account an invocation signs with; `None` means no
    /// account is configured under the resolved name.
    pub fn select_account(&self, requested: &Option<String>) -> (res: Option<usize>)
        ensures
            match res {
                Some(i) => self.spec_account_selection(opt_str_view(*requested)) == Some(
                    i as int,
                ),
                None => self.spec_account_selection(opt_str_view(*requested)) is None,
            },
    {
        let name: &String = match requested {
            Some(n) => n,
            None => {
                if self.accounts.len() == 0 {
                    return None;
                }
                &self.accounts[0].0
            },
        };
        assoc_find(&self.accounts, name.as_str())
    }
}

} // verus!
