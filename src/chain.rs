//! Identifiers of the chains that a swap can target.

use vstd::prelude::*;

verus! {

/// The kind of network a chain belongs to.
#[derive(Clone, Copy, Debug, PartialEq, Eq, Structural)]
pub enum NetworkId {
    Mainnet,
    Testnet,
}

/// A chain, named by its network kind and a numeric chain id.
#[derive(Clone, Copy, Debug, PartialEq, Eq, Structural)]
pub struct ChainId {
    pub network_id: NetworkId,
    pub chain_id: u64,
}

impl ChainId {
    pub fn new(network_id: NetworkId, chain_id: u64) -> (r: Self)
        ensures
            r.network_id == network_id,
            r.chain_id == chain_id,
    {
        ChainId { network_id, chain_id }
    }

    /// Ethereum mainnet: chain id 1.
    pub fn ethereum_mainnet() -> (r: Self)
        ensures
            r.network_id == NetworkId::Mainnet,
            r.chain_id == 1,
    {
        ChainId { network_id: NetworkId::Mainnet, chain_id: 1 }
    }

    /// The Sepolia test network of Ethereum: chain id 11155111.
    pub fn ethereum_sepolia() -> (r: Self)
        ensures
            r.network_id == NetworkId::Testnet,
            r.chain_id == 11155111,
    {
        ChainId { network_id: NetworkId::Testnet, chain_id: 11155111 }
    }

    /// NEAR mainnet, which has no numeric chain id: 0.
    pub fn near_mainnet() -> (r: Self)
        ensures
            r.network_id == NetworkId::Mainnet,
            r.chain_id == 0,
    {
        ChainId { network_id: NetworkId::Mainnet, chain_id: 0 }
    }

    /// NEAR testnet, which has no numeric chain id: 0.
    pub fn near_testnet() -> (r: Self)
        ensures
            r.network_id == NetworkId::Testnet,
            r.chain_id == 0,
    {
        ChainId { network_id: NetworkId::Testnet, chain_id: 0 }
    }
}

} // verus!
