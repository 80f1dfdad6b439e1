//! Network selection and connection settings.

use vstd::prelude::*;

verus! {

/// A Stellar network.
#[derive(Debug, Clone, Copy, PartialEq, Eq)]
pub enum Network {
    Testnet,
    Mainnet,
}

/// Connection settings for a Stellar network.
#[derive(Debug, Clone)]
pub struct NetworkConfig {
    pub network: Network,
    pub rpc_url: String,
    pub network_passphrase: String,
    pub archive_urls: Vec<String>,
    pub api_key: Option<String>,
    pub request_timeout_secs: u64,
}

/// The view of connection settings: network, RPC URL, passphrase, archive
/// URLs, API key, timeout.
pub open spec fn config_view(c: NetworkConfig) -> (Network, Seq<char>, Seq<char>, Seq<Seq<char>>, Option<Seq<char>>, u64) {
    (
        c.network,
        c.rpc_url@,
        c.network_passphrase@,
        c.archive_urls@.map_values(|u: String| u@),
        match c.api_key {
            Some(k) => Some(k@),
            None => None,
        },
        c.request_timeout_secs,
    )
}

/// A copy of connection settings.
pub fn copy_config(c: &NetworkConfig) -> (r: NetworkConfig)
    ensures
        config_view(r) == config_view(*c),
{
    let mut archive_urls: Vec<String> = Vec::new();
    let mut i: usize = 0;
    while i < c.archive_urls.len()
        invariant
            i <= c.archive_urls@.len(),
            archive_urls@.len() == i,
            forall|j: int| 0 <= j < i ==> #[trigger] archive_urls@[j]@ == c.archive_urls@[j]@,
        decreases c.archive_urls@.len() - i,
    {
        archive_urls.push(c.archive_urls[i].clone());
        i = i + 1;
    }
    assert(archive_urls@.map_values(|u: String| u@) =~= c.archive_urls@.map_values(|u: String| u@));
    let api_key = match &c.api_key {
        Some(k) => Some(k.clone()),
        None => None,
    };
    NetworkConfig {
        network: c.network,
        rpc_url: c.rpc_url.clone(),
        network_passphrase: c.network_passphrase.clone(),
        archive_urls,
        api_key,
        request_timeout_secs: c.request_timeout_secs,
    }
}

impl NetworkConfig {
    /// The settings of the public test network.
    pub fn testnet() -> (c: Self)
        ensures
            c.network == Network::Testnet,
            c.rpc_url@ == "https://soroban-testnet.stellar.org"@,
            c.network_passphrase@ == "Test SDF Network ; September 2015"@,
            c.api_key is None,
            c.request_timeout_secs == 30,
    {
        NetworkConfig {
            network: Network::Testnet,
            rpc_url: String::from_str("https://soroban-testnet.stellar.org"),
            network_passphrase: String::from_str("Test SDF Network ; September 2015"),
            archive_urls: vec![String::from_str("https://history.stellar.org/prd/core-testnet/core_testnet_001")],
            api_key: None,
            request_timeout_secs: 30,
        }
    }

    /// The settings of the main network.
    pub fn mainnet() -> (c: Self)
        ensures
            c.network == Network::Mainnet,
            c.rpc_url@ == "https://mainnet.sorobanrpc.com"@,
            c.network_passphrase@ == "Public Global Stellar Network ; September 2015"@,
            c.api_key is None,
            c.request_timeout_secs == 30,
    {
        NetworkConfig {
            network: Network::Mainnet,
            rpc_url: String::from_str("https://mainnet.sorobanrpc.com"),
            network_passphrase: String::from_str("Public Global Stellar Network ; September 2015"),
            archive_urls: vec![String::from_str("https://history.stellar.org/prd/core-live/core_live_001")],
            api_key: None,
            request_timeout_secs: 30,
        }
    }
}

} // verus!
