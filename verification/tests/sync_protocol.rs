//! The synchronization protocol: checkpoint movement, atomicity, balances.

use manta_wallet::algebra::{FieldElement, GroupElement};
use manta_wallet::errors::WalletError;
use manta_wallet::ledger::VectorLedger;
use manta_wallet::opener::TableOpener;
use manta_wallet::signer::Signer;
use manta_wallet::typed::{
    Asset, FullIncomingNote, IncomingNote, LightIncomingNote, Nullifier, OutgoingNote, Utxo,
};
use manta_wallet::wallet::{ControlFlow, NetworkWallet};
use manta_wallet::Checkpoint;

fn fe(k: u8) -> FieldElement {
    let mut bytes = [0u8; 32];
    bytes[0] = k;
    FieldElement { bytes }
}

fn ge(k: u8) -> GroupElement {
    let mut bytes = [0u8; 32];
    bytes[0] = k;
    GroupElement { bytes }
}

fn asset(id: u8, value: u128) -> Asset {
    Asset { id: fe(id), value }
}

/// A receiver entry whose incoming note carries the ephemeral key `epk`.
fn receiver(commitment: u8, epk: u8) -> (Utxo, FullIncomingNote) {
    let utxo = Utxo { is_transparent: false, public_asset: asset(0, 0), commitment: fe(commitment) };
    let note = FullIncomingNote {
        address_partition: 0,
        incoming_note: IncomingNote {
            ephemeral_public_key: ge(epk),
            tag: fe(0),
            ciphertext: [fe(0), fe(0), fe(0)],
        },
        light_incoming_note: LightIncomingNote {
            ephemeral_public_key: ge(epk),
            ciphertext: [[0u8; 32]; 3],
        },
    };
    (utxo, note)
}

/// A nullifier entry whose outgoing note carries the ephemeral key `epk`.
fn sender(commitment: u8, epk: u8) -> Nullifier {
    Nullifier {
        commitment: fe(commitment),
        outgoing_note: OutgoingNote { ephemeral_public_key: ge(epk), ciphertext: [[0u8; 32]; 2] },
    }
}

fn ledger(
    receivers: Vec<(Utxo, FullIncomingNote)>,
    senders: Vec<Nullifier>,
    chunk: usize,
) -> VectorLedger {
    VectorLedger {
        receivers,
        senders,
        paths: Vec::new(),
        chunk,
        accept_posts: true,
        failures_after: usize::MAX,
        pushed: Vec::new(),
    }
}

/// The opener that recovers `a1` from epk 1 and `a2` from epk 2 on
/// incoming notes, and `spent` from epk 3 on outgoing notes.
fn opener(a1: Asset, a2: Asset, spent: Asset) -> TableOpener {
    TableOpener {
        incoming: vec![(ge(1), a1), (ge(2), a2)],
        outgoing: vec![(ge(3), spent)],
    }
}

fn wallet_with(
    receivers: Vec<(Utxo, FullIncomingNote)>,
    senders: Vec<Nullifier>,
    chunk: usize,
    op: TableOpener,
) -> NetworkWallet<VectorLedger, TableOpener> {
    let mut signer: Signer<TableOpener> = Signer::new();
    signer.load_authorization_context(op);
    NetworkWallet::new(ledger(receivers, senders, chunk), signer)
}

#[test]
fn two_pull_sync_combines_balance_deltas() {
    // Starting from the empty checkpoint, the first pull serves one entry
    // with should_continue set, the second serves the rest and stops. The
    // combined balance delta of both payloads lands in the wallet.
    let mut w = wallet_with(
        vec![receiver(10, 1), receiver(11, 2)],
        vec![],
        1,
        opener(asset(7, 10), asset(7, 32), asset(7, 1)),
    );
    assert_eq!(w.checkpoint(), Checkpoint { receiver_index: 0, sender_index: 0 });
    let resp = w.sync().unwrap();
    assert_eq!(resp.checkpoint.receiver_index, 2);
    assert_eq!(resp.checkpoint.sender_index, 0);
    assert_eq!(w.balance(&fe(7)), 42);
    // Both commitments entered the accumulator, in ledger order.
    assert_eq!(w.signer.utxo_accumulator, vec![fe(10), fe(11)]);
}

#[test]
fn partial_steps_advance_the_checkpoint_monotonically() {
    let mut w = wallet_with(
        vec![receiver(10, 1), receiver(11, 2), receiver(12, 1)],
        vec![sender(10, 3), sender(11, 9)],
        1,
        opener(asset(7, 5), asset(7, 6), asset(7, 4)),
    );
    let mut last = w.checkpoint();
    loop {
        let step = w.sync_partial().unwrap();
        let now = w.checkpoint();
        assert!(now.receiver_index >= last.receiver_index);
        assert!(now.sender_index >= last.sender_index);
        last = now;
        if step == ControlFlow::Break {
            break;
        }
    }
    assert_eq!(last.receiver_index, 3);
    assert_eq!(last.sender_index, 2);
    // Deposits 5 + 6 + 5, one recovered withdrawal of 4.
    assert_eq!(w.balance(&fe(7)), 12);
    assert_eq!(w.signer.nullifiers.len(), 2);
}

#[test]
fn sbt_sync_never_touches_the_accumulator() {
    let mut w = wallet_with(
        vec![receiver(10, 1), receiver(11, 2)],
        vec![],
        8,
        opener(asset(7, 10), asset(7, 32), asset(7, 1)),
    );
    // Give the accumulator a prior leaf through a restored snapshot.
    let mut snapshot = w.get_storage();
    snapshot.utxo_accumulator = vec![fe(99)];
    assert!(w.set_storage(&Some(snapshot)));
    let before = w.signer.utxo_accumulator.clone();
    let resp = w.sbt_sync().unwrap();
    assert_eq!(resp.checkpoint.receiver_index, 2);
    assert_eq!(w.signer.utxo_accumulator, before);
    // The balances still moved.
    assert_eq!(w.balance(&fe(7)), 42);
}

#[test]
fn sync_resumes_at_the_committed_checkpoint_after_a_connection_error() {
    let mut w = wallet_with(
        vec![receiver(10, 1), receiver(11, 2)],
        vec![],
        1,
        opener(asset(7, 10), asset(7, 32), asset(7, 1)),
    );
    // One successful pull, then the connection drops.
    w.ledger.failures_after = 1;
    let err = w.sync().unwrap_err();
    assert!(matches!(err, WalletError::Connection(_)));
    // The first step committed; nothing after it half-applied.
    assert_eq!(w.checkpoint().receiver_index, 1);
    assert_eq!(w.balance(&fe(7)), 10);
    // Restore the connection and resume from the committed checkpoint.
    w.ledger.failures_after = usize::MAX;
    let resp = w.sync().unwrap();
    assert_eq!(resp.checkpoint.receiver_index, 2);
    assert_eq!(w.balance(&fe(7)), 42);
}

#[test]
fn initial_sync_is_all_or_nothing() {
    let mut w = wallet_with(
        vec![receiver(10, 1), receiver(11, 2), receiver(12, 1)],
        vec![sender(10, 3)],
        1,
        opener(asset(7, 5), asset(7, 6), asset(7, 4)),
    );
    // Two from-scratch pulls succeed, then the connection fails mid-loop:
    // none of the already-gathered data may touch the signer.
    w.ledger.failures_after = 2;
    let err = w.initial_sync().unwrap_err();
    assert!(matches!(err, WalletError::Connection(_)));
    assert_eq!(w.checkpoint(), Checkpoint { receiver_index: 0, sender_index: 0 });
    assert_eq!(w.signer.utxo_accumulator.len(), 0);
    assert_eq!(w.balance(&fe(7)), 0);
    // With the connection restored, the bulk application happens once.
    w.ledger.failures_after = usize::MAX;
    let resp = w.initial_sync().unwrap();
    assert_eq!(resp.checkpoint.receiver_index, 3);
    assert_eq!(resp.checkpoint.sender_index, 1);
    assert_eq!(w.signer.utxo_accumulator, vec![fe(10), fe(11), fe(12)]);
    // A from-scratch synchronization recovers no balances: the wallet
    // lacks the recovery material for pre-existing notes.
    assert_eq!(w.balance(&fe(7)), 0);
}

#[test]
fn restart_recovers_the_full_state_from_scratch() {
    let mut w = wallet_with(
        vec![receiver(10, 1), receiver(11, 2)],
        vec![],
        1,
        opener(asset(7, 10), asset(7, 32), asset(7, 1)),
    );
    w.sync().unwrap();
    assert_eq!(w.balance(&fe(7)), 42);
    let resp = w.restart().unwrap();
    assert_eq!(resp.checkpoint.receiver_index, 2);
    assert_eq!(w.balance(&fe(7)), 42);
    assert_eq!(w.signer.utxo_accumulator, vec![fe(10), fe(11)]);
}

#[test]
fn inconsistent_withdrawal_stops_the_sync_and_commits_nothing_further() {
    // The opener recovers a withdrawal of 100 while the wallet holds 5:
    // local and remote state disagree, and the step must not apply.
    let mut w = wallet_with(
        vec![receiver(10, 1)],
        vec![sender(10, 3)],
        8,
        opener(asset(7, 5), asset(7, 0), asset(7, 100)),
    );
    let err = w.sync().unwrap_err();
    assert!(matches!(
        err,
        WalletError::Sync(manta_wallet::errors::SyncError::Inconsistency)
    ));
    // The failed step applied nothing.
    assert_eq!(w.checkpoint(), Checkpoint { receiver_index: 0, sender_index: 0 });
    assert_eq!(w.balance(&fe(7)), 0);
    assert_eq!(w.signer.utxo_accumulator.len(), 0);
}

#[test]
fn prune_changes_nothing() {
    let mut w = wallet_with(
        vec![receiver(10, 1)],
        vec![],
        8,
        opener(asset(7, 5), asset(7, 0), asset(7, 1)),
    );
    w.sync().unwrap();
    let checkpoint = w.checkpoint();
    let accumulator = w.signer.utxo_accumulator.clone();
    let balance = w.balance(&fe(7));
    w.prune();
    assert_eq!(w.checkpoint(), checkpoint);
    assert_eq!(w.signer.utxo_accumulator, accumulator);
    assert_eq!(w.balance(&fe(7)), balance);
}

#[test]
fn dropping_the_authorization_context_stops_recovery() {
    let mut w = wallet_with(
        vec![receiver(10, 1), receiver(11, 2)],
        vec![],
        1,
        opener(asset(7, 10), asset(7, 32), asset(7, 1)),
    );
    w.drop_authorization_context();
    w.sync().unwrap();
    // The entries still advanced the checkpoint and the accumulator, but
    // without a viewing capability nothing was recovered.
    assert_eq!(w.checkpoint().receiver_index, 2);
    assert_eq!(w.signer.utxo_accumulator.len(), 2);
    assert_eq!(w.balance(&fe(7)), 0);
}

#[test]
fn overflowing_deposit_fails_the_step_atomically() {
    // Two recovered deposits of the same asset together exceed the balance
    // range: the whole step fails and nothing of it applies.
    let mut w = wallet_with(
        vec![receiver(10, 1), receiver(11, 2)],
        vec![],
        8,
        opener(asset(7, u128::MAX), asset(7, 1), asset(7, 0)),
    );
    let err = w.sync().unwrap_err();
    assert!(matches!(
        err,
        WalletError::Sync(manta_wallet::errors::SyncError::BalanceOverflow)
    ));
    assert_eq!(w.checkpoint(), Checkpoint { receiver_index: 0, sender_index: 0 });
    assert_eq!(w.balance(&fe(7)), 0);
    assert_eq!(w.signer.utxo_accumulator.len(), 0);
}
