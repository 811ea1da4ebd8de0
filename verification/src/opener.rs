//! The viewing capability: recovering owned assets from notes.
//!
//! Which incoming notes belong to the wallet, and which spent assets an
//! outgoing note reveals, is decided by decrypting under the wallet's
//! authorization context — cryptographic work outside this crate. The
//! engine only depends on the outcome, stated by the [`NoteOpener`] trait:
//! the sync contracts hold for every opener. [`TableOpener`] is a concrete
//! opener over an explicit table, keyed by ephemeral public key.

use vstd::prelude::*;

use crate::algebra::{bytes32_eq, GroupElement};
use crate::typed::{Asset, FullIncomingNote, Nullifier, Utxo};

verus! {

/// A viewing capability: decides which notes are the wallet's, and what
/// asset each of them carries.
pub trait NoteOpener {
    /// What the opener recovers from a receiver entry: the received asset
    /// when the note decrypts under the wallet's keys, nothing otherwise.
    spec fn opens_incoming(&self, utxo: Utxo, note: FullIncomingNote) -> Option<Asset>;

    /// What the opener recovers from a nullifier entry: the spent asset
    /// when the outgoing note decrypts under the wallet's keys.
    spec fn opens_outgoing(&self, nullifier: Nullifier) -> Option<Asset>;

    /// Opens a receiver entry.
    fn open_incoming(&self, utxo: &Utxo, note: &FullIncomingNote) -> (r: Option<Asset>)
        ensures
            r == self.opens_incoming(*utxo, *note),
    ;

    /// Opens a nullifier entry.
    fn open_outgoing(&self, nullifier: &Nullifier) -> (r: Option<Asset>)
        ensures
            r == self.opens_outgoing(*nullifier),
    ;
}

/// The asset of the first table row keyed by `key`, if any row is.
pub open spec fn table_lookup(table: Seq<(GroupElement, Asset)>, key: Seq<u8>) -> Option<Asset>
    decreases table.len(),
{
    if table.len() == 0 {
        None
    } else if table[0].0.bytes@ == key {
        Some(table[0].1)
    } else {
        table_lookup(table.drop_first(), key)
    }
}

/// A key that no row carries looks up to nothing.
proof fn lemma_table_lookup_absent(table: Seq<(GroupElement, Asset)>, key: Seq<u8>)
    requires
        forall|j: int| 0 <= j < table.len() ==> (#[trigger] table[j]).0.bytes@ != key,
    ensures
        table_lookup(table, key) is None,
    decreases table.len(),
{
    if table.len() > 0 {
        assert forall|j: int| 0 <= j < table.drop_first().len() implies (
        #[trigger] table.drop_first()[j]).0.bytes@ != key by {
            assert(table.drop_first()[j] == table[j + 1]);
        }
        lemma_table_lookup_absent(table.drop_first(), key);
    }
}

/// A lookup returns the asset of the first row carrying the key.
proof fn lemma_table_lookup_first_match(table: Seq<(GroupElement, Asset)>, key: Seq<u8>, i: int)
    requires
        0 <= i < table.len(),
        table[i].0.bytes@ == key,
        forall|j: int| 0 <= j < i ==> (#[trigger] table[j]).0.bytes@ != key,
    ensures
        table_lookup(table, key) == Some(table[i].1),
    decreases i,
{
    if i > 0 {
        assert forall|j: int| 0 <= j < i - 1 implies (
        #[trigger] table.drop_first()[j]).0.bytes@ != key by {
            assert(table.drop_first()[j] == table[j + 1]);
        }
        assert(table.drop_first()[i - 1] == table[i]);
        lemma_table_lookup_first_match(table.drop_first(), key, i - 1);
    }
}

/// Scans a table for the first row keyed by `key`.
fn table_find(table: &Vec<(GroupElement, Asset)>, key: &[u8; 32]) -> (r: Option<Asset>)
    ensures
        r == table_lookup(table@, key@),
{
    let n = table.len();
    let mut i: usize = 0;
    while i < n
        invariant
            0 <= i <= n == table@.len(),
            forall|j: int| 0 <= j < i ==> (#[trigger] table@[j]).0.bytes@ != key@,
        decreases n - i,
    {
        if bytes32_eq(&table[i].0.bytes, key) {
            proof {
                lemma_table_lookup_first_match(table@, key@, i as int);
            }
            return Some(table[i].1);
        }
        i += 1;
    }
    proof {
        lemma_table_lookup_absent(table@, key@);
    }
    None
}

/// An opener over an explicit table: a note belongs to the wallet exactly
/// when its ephemeral public key has a row, and the row names the asset.
#[derive(Clone, Debug)]
pub struct TableOpener {
    /// Received assets, keyed by the incoming note's ephemeral public key.
    pub incoming: Vec<(GroupElement, Asset)>,
    /// Spent assets, keyed by the outgoing note's ephemeral public key.
    pub outgoing: Vec<(GroupElement, Asset)>,
}

impl TableOpener {
    /// An opener that recovers nothing.
    pub fn new() -> (r: TableOpener)
        ensures
            r.incoming@.len() == 0,
            r.outgoing@.len() == 0,
    {
        TableOpener { incoming: Vec::new(), outgoing: Vec::new() }
    }
}

impl NoteOpener for TableOpener {
    open spec fn opens_incoming(&self, utxo: Utxo, note: FullIncomingNote) -> Option<Asset> {
        table_lookup(self.incoming@, note.incoming_note.ephemeral_public_key.bytes@)
    }

    open spec fn opens_outgoing(&self, nullifier: Nullifier) -> Option<Asset> {
        table_lookup(self.outgoing@, nullifier.outgoing_note.ephemeral_public_key.bytes@)
    }

    fn open_incoming(&self, utxo: &Utxo, note: &FullIncomingNote) -> (r: Option<Asset>) {
        table_find(&self.incoming, &note.incoming_note.ephemeral_public_key.bytes)
    }

    fn open_outgoing(&self, nullifier: &Nullifier) -> (r: Option<Asset>) {
        table_find(&self.outgoing, &nullifier.outgoing_note.ephemeral_public_key.bytes)
    }
}

} // verus!
