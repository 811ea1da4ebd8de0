//! Error taxonomy of the wallet core.
//!
//! Decode and connection errors propagate to the caller without local
//! recovery; inconsistency errors mark a mismatch between local and remote
//! state; a missing network registration is a typed error, never a panic.

use vstd::prelude::*;

verus! {

/// Why a raw wire value failed to convert into its typed form.
///
/// A failed conversion has no partial effect: the decoding functions build
/// a typed value only when every component of the input is acceptable.
#[derive(Clone, Copy, Debug, PartialEq, Eq, Structural)]
pub enum DecodeError {
    /// The byte blob does not have the protocol-pinned length.
    WrongLength,
    /// The bytes have the pinned length but are not a canonical encoding:
    /// a scalar at or above the field modulus, or a point not on the curve.
    NonCanonical,
}

/// Transport failure at the ledger boundary.
///
/// It aborts the current synchronization loop at the last committed
/// checkpoint; the caller may resume by synchronizing again.
#[derive(Clone, Copy, Debug, PartialEq, Eq, Structural)]
pub struct LedgerError;

/// Why applying pulled ledger data to the local signer state failed.
///
/// A failed application leaves the signer state exactly as it was.
#[derive(Clone, Copy, Debug, PartialEq, Eq, Structural)]
pub enum SyncError {
    /// The pulled data would advance a checkpoint counter beyond its range.
    CheckpointOverflow,
    /// A recovered deposit would overflow the balance of its asset.
    BalanceOverflow,
    /// A withdrawal was recovered that exceeds the balance the wallet
    /// holds for that asset: local and remote state disagree.
    Inconsistency,
}

/// Why building transfer posts for a transaction failed.
#[derive(Clone, Copy, Debug, PartialEq, Eq, Structural)]
pub enum SignError {
    /// The wallet holds less of the asset than the transaction spends.
    InsufficientBalance,
}

/// The error type of the wallet facade.
#[derive(Clone, Copy, Debug, PartialEq, Eq, Structural)]
pub enum WalletError {
    /// No wallet is registered for the requested network slot.
    NoWalletForNetwork,
    /// The ledger connection failed; wallet state is intact at the last
    /// committed checkpoint.
    Connection(LedgerError),
    /// Applying pulled data to the signer failed.
    Sync(SyncError),
    /// Building transfer posts failed.
    Sign(SignError),
}

} // verus!
