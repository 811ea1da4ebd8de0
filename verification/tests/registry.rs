//! The network registry and the post path.

use manta_wallet::algebra::{FieldElement, GroupElement};
use manta_wallet::errors::{SignError, WalletError};
use manta_wallet::ledger::VectorLedger;
use manta_wallet::opener::TableOpener;
use manta_wallet::signer::Signer;
use manta_wallet::typed::{
    Asset, FullIncomingNote, IncomingNote, LightIncomingNote, Transaction, TransferPost, Utxo,
};
use manta_wallet::wallet::{Network, NetworkWallet, Wallet};

fn fe(k: u8) -> FieldElement {
    let mut bytes = [0u8; 32];
    bytes[0] = k;
    FieldElement { bytes }
}

fn ge(k: u8) -> GroupElement {
    let mut bytes = [0u8; 32];
    bytes[0] = k;
    GroupElement { bytes }
}

fn asset(id: u8, value: u128) -> Asset {
    Asset { id: fe(id), value }
}

fn receiver(commitment: u8, epk: u8) -> (Utxo, FullIncomingNote) {
    let utxo = Utxo { is_transparent: false, public_asset: asset(0, 0), commitment: fe(commitment) };
    let note = FullIncomingNote {
        address_partition: 0,
        incoming_note: IncomingNote {
            ephemeral_public_key: ge(epk),
            tag: fe(0),
            ciphertext: [fe(0), fe(0), fe(0)],
        },
        light_incoming_note: LightIncomingNote {
            ephemeral_public_key: ge(epk),
            ciphertext: [[0u8; 32]; 3],
        },
    };
    (utxo, note)
}

fn ledger(receivers: Vec<(Utxo, FullIncomingNote)>, accept_posts: bool) -> VectorLedger {
    VectorLedger {
        receivers,
        senders: Vec::new(),
        paths: Vec::new(),
        chunk: 8,
        accept_posts,
        failures_after: usize::MAX,
        pushed: Vec::new(),
    }
}

fn signer_with(op: TableOpener) -> Signer<TableOpener> {
    let mut signer: Signer<TableOpener> = Signer::new();
    signer.load_authorization_context(op);
    signer
}

fn opener(value: u128) -> TableOpener {
    TableOpener { incoming: vec![(ge(1), asset(7, value))], outgoing: vec![] }
}

fn empty_post() -> TransferPost {
    TransferPost {
        authorization_signature: None,
        asset_id: Some(fe(7)),
        sources: vec![],
        sender_posts: vec![],
        receiver_posts: vec![],
        sinks: vec![],
        proof: vec![1, 2, 3],
        sink_accounts: vec![],
    }
}

#[test]
fn balance_on_an_unregistered_network_is_a_typed_error() {
    let w: Wallet<VectorLedger, TableOpener> = Wallet::new();
    assert_eq!(
        w.balance(&fe(7), Network::Dolphin),
        Err(WalletError::NoWalletForNetwork)
    );
    assert_eq!(
        w.checkpoint(Network::Manta).unwrap_err(),
        WalletError::NoWalletForNetwork
    );
}

#[test]
fn registration_fills_exactly_one_slot() {
    let mut w: Wallet<VectorLedger, TableOpener> = Wallet::new();
    w.set_network(
        ledger(vec![receiver(10, 1)], true),
        signer_with(opener(10)),
        Network::Calamari,
    );
    w.sync(Network::Calamari).unwrap();
    assert_eq!(w.balance(&fe(7), Network::Calamari), Ok(10));
    assert_eq!(
        w.balance(&fe(7), Network::Dolphin),
        Err(WalletError::NoWalletForNetwork)
    );
    assert_eq!(
        w.balance(&fe(7), Network::Manta),
        Err(WalletError::NoWalletForNetwork)
    );
}

#[test]
fn registration_is_last_write_wins() {
    let mut w: Wallet<VectorLedger, TableOpener> = Wallet::new();
    w.set_network(
        ledger(vec![receiver(10, 1)], true),
        signer_with(opener(10)),
        Network::Dolphin,
    );
    w.sync(Network::Dolphin).unwrap();
    assert_eq!(w.balance(&fe(7), Network::Dolphin), Ok(10));
    // A second registration replaces the slot; no state is merged.
    w.set_network(
        ledger(vec![receiver(10, 1)], true),
        signer_with(opener(3)),
        Network::Dolphin,
    );
    assert_eq!(w.balance(&fe(7), Network::Dolphin), Ok(0));
    let cp = w.checkpoint(Network::Dolphin).unwrap();
    assert_eq!(cp.receiver_index, 0);
}

#[test]
fn rejected_push_leaves_checkpoint_and_accumulator_unchanged() {
    let mut w = NetworkWallet::new(ledger(vec![receiver(10, 1)], false), signer_with(opener(10)));
    w.sync().unwrap();
    let checkpoint = w.checkpoint();
    let accumulator = w.signer.utxo_accumulator.clone();
    let response = w.push(&vec![empty_post()]).unwrap();
    assert!(!response.accepted);
    assert_eq!(w.checkpoint(), checkpoint);
    assert_eq!(w.signer.utxo_accumulator, accumulator);
    // A rejection is an ordinary response: posting again is safe.
    let again = w.push(&vec![empty_post()]).unwrap();
    assert!(!again.accepted);
    assert_eq!(w.checkpoint(), checkpoint);
}

#[test]
fn post_synchronizes_validates_and_submits() {
    let mut w: Wallet<VectorLedger, TableOpener> = Wallet::new();
    w.set_network(
        ledger(vec![receiver(10, 1)], true),
        signer_with(opener(10)),
        Network::Manta,
    );
    let tx = Transaction::ToPublic(asset(7, 6));
    let response = w.post(&tx, &vec![empty_post()], Network::Manta).unwrap();
    assert!(response.accepted);
    // The submission itself moved no sync state past the synchronized point.
    let cp = w.checkpoint(Network::Manta).unwrap();
    assert_eq!(cp.receiver_index, 1);
}

#[test]
fn post_fails_on_insufficient_balance_without_submitting() {
    let mut w: Wallet<VectorLedger, TableOpener> = Wallet::new();
    w.set_network(
        ledger(vec![receiver(10, 1)], true),
        signer_with(opener(10)),
        Network::Manta,
    );
    let tx = Transaction::ToPublic(asset(7, 11));
    let err = w.post(&tx, &vec![empty_post()], Network::Manta).unwrap_err();
    assert_eq!(err, WalletError::Sign(SignError::InsufficientBalance));
}

#[test]
fn sign_validates_against_the_held_balance() {
    let mut w = NetworkWallet::new(ledger(vec![receiver(10, 1)], true), signer_with(opener(9)));
    w.sync().unwrap();
    assert_eq!(w.sign(&Transaction::ToPublic(asset(7, 9))), Ok(()));
    assert_eq!(
        w.sign(&Transaction::ToPublic(asset(7, 10))),
        Err(SignError::InsufficientBalance)
    );
    assert_eq!(
        w.sign(&Transaction::PrivateTransfer(
            asset(7, 10),
            manta_wallet::typed::Address { receiver: ge(4) }
        )),
        Err(SignError::InsufficientBalance)
    );
    // Receiving into the pool spends nothing shielded.
    assert_eq!(w.sign(&Transaction::ToPrivate(asset(7, 1000))), Ok(()));
    // Validation read only: nothing moved.
    assert_eq!(w.balance(&fe(7)), 9);
}

#[test]
fn storage_snapshot_round_trips() {
    let mut w = NetworkWallet::new(ledger(vec![receiver(10, 1)], true), signer_with(opener(10)));
    w.sync().unwrap();
    let snapshot = w.get_storage();
    let mut w2 = NetworkWallet::new(ledger(vec![receiver(10, 1)], true), signer_with(opener(10)));
    assert!(w2.set_storage(&Some(snapshot)));
    assert_eq!(w2.checkpoint(), w.checkpoint());
    assert_eq!(w2.balance(&fe(7)), 10);
    assert_eq!(w2.signer.utxo_accumulator, w.signer.utxo_accumulator);
    // Restoring nothing restores nothing.
    assert!(!w2.set_storage(&None));
}

#[test]
fn reset_state_clears_the_signer() {
    let mut w: Wallet<VectorLedger, TableOpener> = Wallet::new();
    w.set_network(
        ledger(vec![receiver(10, 1)], true),
        signer_with(opener(10)),
        Network::Dolphin,
    );
    w.sync(Network::Dolphin).unwrap();
    assert_eq!(w.balance(&fe(7), Network::Dolphin), Ok(10));
    w.reset_state(Network::Dolphin).unwrap();
    assert_eq!(w.balance(&fe(7), Network::Dolphin), Ok(0));
    let cp = w.checkpoint(Network::Dolphin).unwrap();
    assert_eq!(cp.receiver_index, 0);
    assert_eq!(
        w.reset_state(Network::Manta),
        Err(WalletError::NoWalletForNetwork)
    );
}

#[test]
fn assets_and_contains_reflect_the_ledger_state() {
    let mut w = NetworkWallet::new(ledger(vec![receiver(10, 1)], true), signer_with(opener(10)));
    w.sync().unwrap();
    assert!(w.contains(&asset(7, 10)));
    assert!(!w.contains(&asset(7, 11)));
    let entries = w.assets();
    assert_eq!(entries, vec![(fe(7), 10u128)]);
}
