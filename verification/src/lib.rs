//! A shielded-wallet synchronization core.
//!
//! The crate keeps a local wallet consistent with a remote shielded ledger:
//! it converts raw wire bytes into typed cryptographic values, applies pulled
//! ledger data to local signer state through a checkpoint-driven state
//! machine, and exposes the wallet operations (sync, post, queries) over a
//! fixed-size per-network registry.

use vstd::prelude::*;

pub mod algebra;
pub mod assets;
pub mod codec;
pub mod errors;
pub mod ids;
pub mod ledger;
pub mod opener;
pub mod params;
pub mod raw;
pub mod signer;
pub mod typed;
pub mod wallet;

verus! {

/// A synchronization cursor: how much of the ledger the wallet has applied.
///
/// `receiver_index` counts merkle leaves (one per received UTXO entry) and
/// `sender_index` counts nullifiers. Both only grow during synchronization.
#[derive(Clone, Copy, Debug, PartialEq, Eq)]
pub struct Checkpoint {
    /// Number of receiver (UTXO) entries already applied.
    pub receiver_index: u64,
    /// Number of sender (nullifier) entries already applied.
    pub sender_index: u128,
}

/// Order on checkpoints: `a` is no further along than `b` on both counters.
pub open spec fn checkpoint_le(a: Checkpoint, b: Checkpoint) -> bool {
    a.receiver_index <= b.receiver_index && a.sender_index <= b.sender_index
}

impl Checkpoint {
    /// The cursor of a wallet that has applied nothing yet.
    pub fn new_empty() -> (r: Checkpoint)
        ensures
            r.receiver_index == 0,
            r.sender_index == 0,
    {
        Checkpoint { receiver_index: 0, sender_index: 0 }
    }
}

} // verus!
