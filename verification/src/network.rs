//! The predefined networks and their free public RPC endpoints.

use vstd::prelude::*;

verus! {

/// A predefined Starknet network.
#[derive(Clone, Copy, Debug, PartialEq, Eq, Structural)]
pub enum Network {
    Mainnet,
    Sepolia,
}

/// A vendor of free public RPC endpoints.
#[derive(Clone, Copy, Debug, PartialEq, Eq, Structural)]
pub enum FreeProvider {
    Blast,
    Voyager,
}

/// The seed used when the installation's own seed is unavailable.
pub const FALLBACK_SEED: u64 = 2;

/// The provider that a seed selects: `Blast` for an even seed, `Voyager` for an
/// odd one, with `FALLBACK_SEED` standing in for a missing seed.
pub open spec fn provider_for_seed(seed: Option<u64>) -> FreeProvider {
    let seed: u64 = match seed {
        Some(seed) => seed,
        None => FALLBACK_SEED,
    };
    if seed % 2 == 0 {
        FreeProvider::Blast
    } else {
        FreeProvider::Voyager
    }
}

/// The table of free endpoints, one per network and provider.
pub open spec fn free_rpc_url(network: Network, provider: FreeProvider) -> Seq<char> {
    match (network, provider) {
        (Network::Mainnet, FreeProvider::Blast) => "https://starknet-mainnet.public.blastapi.io/rpc/v0_7"@,
        (Network::Mainnet, FreeProvider::Voyager) => "https://free-rpc.nethermind.io/mainnet-juno"@,
        (Network::Sepolia, FreeProvider::Blast) => "https://starknet-sepolia.public.blastapi.io/rpc/v0_7"@,
        (Network::Sepolia, FreeProvider::Voyager) => "https://free-rpc.nethermind.io/sepolia-juno"@,
    }
}

/// A text that starts with `https://` and names something after it.
pub open spec fn is_https_url(url: Seq<char>) -> bool {
    &&& url.len() > 8
    &&& url.subrange(0, 8) == seq!['h', 't', 't', 'p', 's', ':', '/', '/']
}

impl FreeProvider {
    /// Picks a provider from the installation's seed: the time, in seconds since
    /// the epoch, at which the running executable was last modified, or `None`
    /// where that time cannot be had. The choice is the same for every command
    /// run from one installation and changes as installations are replaced.
    pub fn semi_random(seed: Option<u64>) -> (provider: FreeProvider)
        ensures
            provider == provider_for_seed(seed),
    {
        let seed: u64 = match seed {
            Some(seed) => seed,
            None => FALLBACK_SEED,
        };
        if seed % 2 == 0 {
            return FreeProvider::Blast;
        }
        FreeProvider::Voyager
    }
}

impl Network {
    /// The free endpoint of this network at the given provider.
    pub fn url(self, provider: &FreeProvider) -> (url: String)
        ensures
            url@ == free_rpc_url(self, *provider),
    {
        match self {
            Network::Mainnet => Self::free_mainnet_rpc(provider),
            Network::Sepolia => Self::free_sepolia_rpc(provider),
        }
    }

    /// The free mainnet endpoint of the given provider.
    pub fn free_mainnet_rpc(provider: &FreeProvider) -> (url: String)
        ensures
            url@ == free_rpc_url(Network::Mainnet, *provider),
    {
        match provider {
            FreeProvider::Blast => "https://starknet-mainnet.public.blastapi.io/rpc/v0_7".to_owned(),
            FreeProvider::Voyager => "https://free-rpc.nethermind.io/mainnet-juno".to_owned(),
        }
    }

    /// The free Sepolia endpoint of the given provider.
    pub fn free_sepolia_rpc(provider: &FreeProvider) -> (url: String)
        ensures
            url@ == free_rpc_url(Network::Sepolia, *provider),
    {
        match provider {
            FreeProvider::Blast => "https://starknet-sepolia.public.blastapi.io/rpc/v0_7".to_owned(),
            FreeProvider::Voyager => "https://free-rpc.nethermind.io/sepolia-juno".to_owned(),
        }
    }
}

/// Every entry of the endpoint table is a non-empty `https` URL.
pub proof fn lemma_free_rpc_url_well_formed(network: Network, provider: FreeProvider)
    ensures
        free_rpc_url(network, provider).len() > 0,
        is_https_url(free_rpc_url(network, provider)),
{
    reveal_strlit("https://starknet-mainnet.public.blastapi.io/rpc/v0_7");
    reveal_strlit("https://free-rpc.nethermind.io/mainnet-juno");
    reveal_strlit("https://starknet-sepolia.public.blastapi.io/rpc/v0_7");
    reveal_strlit("https://free-rpc.nethermind.io/sepolia-juno");
    assert(is_https_url(free_rpc_url(network, provider))) by {
        let url = free_rpc_url(network, provider);
        assert(url.subrange(0, 8) =~= seq!['h', 't', 't', 'p', 's', ':', '/', '/']);
    }
}

/// The provider chosen depends on the seed's parity alone.
pub proof fn lemma_provider_for_seed_parity(seed: u64)
    ensures
        seed % 2 == 0 ==> provider_for_seed(Some(seed)) == FreeProvider::Blast,
        seed % 2 == 1 ==> provider_for_seed(Some(seed)) == FreeProvider::Voyager,
        provider_for_seed(None) == FreeProvider::Blast,
{
}

} // verus!
