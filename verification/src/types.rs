//! Records and parameters that the token contracts share.

use vstd::prelude::*;

verus! {

/// The lifecycle of an atomic swap.
#[derive(Clone, Copy, Debug, PartialEq, Eq, Structural)]
pub enum SwapStatus {
    Active,
    Completed,
    Refunded,
    Expired,
}

/// The state of an atomic swap.
#[derive(Clone, Debug, PartialEq, Eq)]
pub struct SwapState {
    pub id: u64,
    pub initiator: String,
    pub recipient: String,
    pub amount: i128,
    pub token_address: String,
    pub secret_hash: [u8; 32],
    pub timelock: u64,
    pub status: SwapStatus,
    pub created_at: u64,
    pub completed_at: u64,
}

/// The lifecycle of a bridge order.
#[derive(Clone, Copy, Debug, PartialEq, Eq, Structural)]
pub enum BridgeStatus {
    Pending,
    Completed,
    Cancelled,
    Expired,
}

/// An order to swap across chains.
#[derive(Clone, Debug, PartialEq, Eq)]
pub struct BridgeOrder {
    pub id: u64,
    pub source_chain_id: u32,
    pub destination_chain_id: u32,
    pub initiator: String,
    pub recipient: String,
    pub source_amount: i128,
    pub min_destination_amount: i128,
    pub token_address: String,
    pub secret_hash: [u8; 32],
    pub timelock: u64,
    pub status: BridgeStatus,
    pub created_at: u64,
    pub completed_at: u64,
    pub source_tx_hash: String,
    pub destination_tx_hash: String,
}

/// Chain identifier of Stellar.
pub const CHAIN_STELLAR: u32 = 1;

/// Chain identifier of Ethereum.
pub const CHAIN_ETHEREUM: u32 = 2;

/// Chain identifier of Bitcoin.
pub const CHAIN_BITCOIN: u32 = 3;

/// Chain identifier of Aptos.
pub const CHAIN_APTOS: u32 = 4;

/// Chain identifier of Sui.
pub const CHAIN_SUI: u32 = 5;

/// Chain identifier of Polygon.
pub const CHAIN_POLYGON: u32 = 6;

/// Chain identifier of Arbitrum.
pub const CHAIN_ARBITRUM: u32 = 7;

/// Chain identifier of Optimism.
pub const CHAIN_OPTIMISM: u32 = 8;

/// Chain identifier of BNB Smart Chain.
pub const CHAIN_BSC: u32 = 9;

/// Chain identifier of Avalanche.
pub const CHAIN_AVALANCHE: u32 = 10;

/// The storage key of the swap counter.
pub const STORAGE_SWAP_COUNTER: &'static str = "swap_counter";

/// The storage key of the bridge counter.
pub const STORAGE_BRIDGE_COUNTER: &'static str = "bridge_counter";

/// The storage key of the administrator.
pub const STORAGE_ADMIN: &'static str = "admin";

/// The storage key of the protocol fee.
pub const STORAGE_PROTOCOL_FEE: &'static str = "protocol_fee";

/// The storage key of the supported chains.
pub const STORAGE_SUPPORTED_CHAINS: &'static str = "supported_chains";

/// The shortest timelock accepted, in seconds: one hour.
pub const MIN_TIMELOCK_DURATION: u64 = 3600;

/// The longest timelock accepted, in seconds: one day.
pub const MAX_TIMELOCK_DURATION: u64 = 86400;

/// The protocol fee, in basis points: half a percent.
pub const PROTOCOL_FEE_RATE: u32 = 50;

/// The length of a secret hash, in bytes.
pub const SECRET_HASH_LENGTH: usize = 32;

} // verus!
