//! The accounts of a local Anvil node.
use vstd::prelude::*;

verus! {

/// An account of a local Anvil node: its address and private key.
#[derive(Clone, Debug)]
pub struct AnvilAddressEntry {
    pub address: String,
    pub private_key: String,
}

/// Pairs the available accounts of an Anvil configuration with their private keys, in order;
/// the shorter list decides how many pairs there are.
pub fn pair_anvil_addresses(available_accounts: Vec<String>, private_keys: Vec<String>) -> (entries: Vec<AnvilAddressEntry>)
    ensures
        entries@.len() == if available_accounts@.len() < private_keys@.len() { available_accounts@.len() } else { private_keys@.len() },
        forall|i: int| 0 <= i < entries@.len() ==> {
            &&& (#[trigger] entries@[i]).address == available_accounts@[i]
            &&& entries@[i].private_key == private_keys@[i]
        },
{
    let n = if available_accounts.len() < private_keys.len() { available_accounts.len() } else { private_keys.len() };
    let mut entries: Vec<AnvilAddressEntry> = Vec::new();
    let mut i: usize = 0;
    while i < n
        invariant
            0 <= i <= n,
            n <= available_accounts@.len(),
            n <= private_keys@.len(),
            entries@.len() == i,
            forall|j: int| 0 <= j < i ==> {
                &&& (#[trigger] entries@[j]).address == available_accounts@[j]
                &&& entries@[j].private_key == private_keys@[j]
            },
        decreases n - i,
    {
        entries.push(AnvilAddressEntry {
            address: available_accounts[i].clone(),
            private_key: private_keys[i].clone(),
        });
        i = i + 1;
    }
    entries
}

/// The accounts section of an Anvil configuration file.
#[derive(Clone, Debug)]
pub struct AnvilConf {
    pub available_accounts: Vec<String>,
    pub private_keys: Vec<String>,
}

impl AnvilConf {
    /// The accounts of the configuration: each available account with its private key, in
    /// order; the shorter list decides how many there are.
    pub fn addresses(self) -> (entries: Vec<AnvilAddressEntry>)
        ensures
            entries@.len() == if self.available_accounts@.len() < self.private_keys@.len() {
                self.available_accounts@.len()
            } else {
                self.private_keys@.len()
            },
            forall|i: int| 0 <= i < entries@.len() ==> {
                &&& (#[trigger] entries@[i]).address == self.available_accounts@[i]
                &&& entries@[i].private_key == self.private_keys@[i]
            },
    {
        pair_anvil_addresses(self.available_accounts, self.private_keys)
    }
}

} // verus!
