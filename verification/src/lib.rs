//! A settlement engine for atomic swaps between parties who do not trust each
//! other: funds are locked behind the hash of a secret and a time window, and
//! are released either to whoever proves knowledge of the secret, or back to
//! their owner once the window has passed.
//!
//! The engine is free of any ledger: every operation takes the caller, the
//! time and what was attached to the call as plain values, and returns the
//! transfers that the ledger has to carry out. Every operation is all or
//! nothing: a call that is rejected leaves the state as it was.
//!
//! The modules fall into four groups.
//!
//! Building blocks:
//! [`hashing`] checks secrets against hashlocks, [`fees`] computes fees in
//! basis points, [`stages`] finds the stage that a time falls into,
//! [`fill_ledger`] keeps the books of partial fills and [`ledger`] holds the
//! values that the account-based ledgers share.
//!
//! Contracts with coins and nanosecond block time:
//! [`atomic_swap`] for swaps on one ledger, [`cross_chain_bridge`] for orders
//! that are finalized by the acknowledgement of a transfer, and [`resolver`]
//! for escrows that a resolver backs with a safety deposit.
//!
//! Contracts with a native asset and hex-encoded secrets:
//! [`near_simple`], [`near_htlc`], [`near_partial`] and [`near_plus`], from the
//! plainest lock to partial fills with safety deposits and statistics.
//!
//! Contracts with tokens and 32-byte secrets:
//! [`stellar_simple`], [`stellar_htlc`], [`multi_token_htlc`],
//! [`partial_fill_htlc`], [`staged_htlc`] with its multi-stage timelocks and
//! resolver registry, and the relayers [`relayer_contract`] and
//! [`stellar_relayer`]; [`types`] and [`utils`] hold what they share.
//!
//! Secrets are hashed with SHA-256, except for the 32-byte secrets of the
//! token contracts, which are hashed with Keccak-256.

pub mod atomic_swap;
pub mod cross_chain_bridge;
pub mod fees;
pub mod fill_ledger;
pub mod hashing;
pub mod ledger;
pub mod multi_token_htlc;
pub mod near_htlc;
pub mod near_partial;
pub mod near_plus;
pub mod near_simple;
pub mod partial_fill_htlc;
pub mod relayer_contract;
pub mod resolver;
pub mod staged_htlc;
pub mod stages;
pub mod stellar_htlc;
pub mod stellar_relayer;
pub mod stellar_simple;
pub mod test_contract;
pub mod types;
pub mod utils;
