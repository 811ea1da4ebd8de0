//! Typed cryptographic values, as the signer consumes them.
//!
//! Each type stores the decoded form of one raw wire structure and carries
//! a well-formedness predicate (`wf`): every algebraic component is a
//! canonical encoding. `matches_raw` relates a typed value to the one raw
//! form that encodes it; the codec's round-trip laws rest on it.

use vstd::bytes::spec_u128_to_le_bytes;
use vstd::prelude::*;

use crate::algebra::{fp_valid, FieldElement, GroupElement};
use crate::raw::{
    RawAsset, RawAuthorizationSignature, RawCurrentPath, RawFullIncomingNote, RawIncomingNote,
    RawInitialPullResponse, RawLightIncomingNote, RawNulllifier, RawOutgoingNote, RawPullResponse,
    RawReceiverPost, RawSenderPost, RawUtxo,
};

verus! {

/// An asset: identifier (a field element) and a 128-bit value.
#[derive(Clone, Copy, Debug, PartialEq, Eq, Hash)]
pub struct Asset {
    /// The asset identifier.
    pub id: FieldElement,
    /// The asset value.
    pub value: u128,
}

impl Asset {
    /// Every algebraic component is canonical.
    pub open spec fn wf(self) -> bool {
        self.id.wf()
    }

    /// `raw` is the unique wire encoding of this asset.
    pub open spec fn matches_raw(self, raw: RawAsset) -> bool {
        &&& raw.id == self.id.bytes
        &&& raw.value@ == spec_u128_to_le_bytes(self.value)
    }
}

/// A UTXO: transparency flag, public asset, and binding commitment.
#[derive(Clone, Copy, Debug, PartialEq, Eq, Hash)]
pub struct Utxo {
    /// Whether the UTXO is transparent.
    pub is_transparent: bool,
    /// The public asset.
    pub public_asset: Asset,
    /// The binding commitment.
    pub commitment: FieldElement,
}

impl Utxo {
    /// Every algebraic component is canonical.
    pub open spec fn wf(self) -> bool {
        self.public_asset.wf() && self.commitment.wf()
    }

    /// `raw` is the unique wire encoding of this UTXO.
    pub open spec fn matches_raw(self, raw: RawUtxo) -> bool {
        &&& raw.is_transparent == self.is_transparent
        &&& self.public_asset.matches_raw(raw.public_asset)
        &&& raw.commitment == self.commitment.bytes
    }
}

/// An incoming note: ephemeral key, tag, and three field-element blocks.
#[derive(Clone, Copy, Debug, PartialEq, Eq, Hash)]
pub struct IncomingNote {
    /// The ephemeral public key.
    pub ephemeral_public_key: GroupElement,
    /// The authentication tag.
    pub tag: FieldElement,
    /// The ciphertext blocks, each a field element.
    pub ciphertext: [FieldElement; 3],
}

impl IncomingNote {
    /// Every algebraic component is canonical.
    pub open spec fn wf(self) -> bool {
        &&& self.ephemeral_public_key.wf()
        &&& self.tag.wf()
        &&& forall|i: int| 0 <= i < 3 ==> self.ciphertext@[i].wf()
    }

    /// `raw` is the unique wire encoding of this note.
    pub open spec fn matches_raw(self, raw: RawIncomingNote) -> bool {
        &&& raw.ephemeral_public_key == self.ephemeral_public_key.bytes
        &&& raw.tag == self.tag.bytes
        &&& forall|i: int| 0 <= i < 3 ==> raw.ciphertext@[i] == self.ciphertext@[i].bytes
    }
}

/// A light incoming note: ephemeral key and raw ciphertext blocks.
#[derive(Clone, Copy, Debug, PartialEq, Eq, Hash)]
pub struct LightIncomingNote {
    /// The ephemeral public key.
    pub ephemeral_public_key: GroupElement,
    /// The ciphertext blocks, opaque to the wallet.
    pub ciphertext: [[u8; 32]; 3],
}

impl LightIncomingNote {
    /// Every algebraic component is canonical.
    pub open spec fn wf(self) -> bool {
        self.ephemeral_public_key.wf()
    }

    /// `raw` is the unique wire encoding of this note.
    pub open spec fn matches_raw(self, raw: RawLightIncomingNote) -> bool {
        &&& raw.ephemeral_public_key == self.ephemeral_public_key.bytes
        &&& raw.ciphertext == self.ciphertext
    }
}

/// A full incoming note: partition byte plus both note variants.
#[derive(Clone, Copy, Debug, PartialEq, Eq, Hash)]
pub struct FullIncomingNote {
    /// The address partition.
    pub address_partition: u8,
    /// The incoming note.
    pub incoming_note: IncomingNote,
    /// The light incoming note.
    pub light_incoming_note: LightIncomingNote,
}

impl FullIncomingNote {
    /// Every algebraic component is canonical.
    pub open spec fn wf(self) -> bool {
        self.incoming_note.wf() && self.light_incoming_note.wf()
    }

    /// `raw` is the unique wire encoding of this note.
    pub open spec fn matches_raw(self, raw: RawFullIncomingNote) -> bool {
        &&& raw.address_partition == self.address_partition
        &&& self.incoming_note.matches_raw(raw.incoming_note)
        &&& self.light_incoming_note.matches_raw(raw.light_incoming_note)
    }
}

/// An outgoing note: ephemeral key and raw ciphertext blocks.
#[derive(Clone, Copy, Debug, PartialEq, Eq, Hash)]
pub struct OutgoingNote {
    /// The ephemeral public key.
    pub ephemeral_public_key: GroupElement,
    /// The ciphertext blocks, opaque to the wallet.
    pub ciphertext: [[u8; 32]; 2],
}

impl OutgoingNote {
    /// Every algebraic component is canonical.
    pub open spec fn wf(self) -> bool {
        self.ephemeral_public_key.wf()
    }

    /// `raw` is the unique wire encoding of this note.
    pub open spec fn matches_raw(self, raw: RawOutgoingNote) -> bool {
        &&& raw.ephemeral_public_key == self.ephemeral_public_key.bytes
        &&& raw.ciphertext == self.ciphertext
    }
}

/// A nullifier: the spent UTXO's commitment plus its outgoing note.
#[derive(Clone, Copy, Debug, PartialEq, Eq, Hash)]
pub struct Nullifier {
    /// The nullifier commitment.
    pub commitment: FieldElement,
    /// The outgoing note of the spent UTXO.
    pub outgoing_note: OutgoingNote,
}

impl Nullifier {
    /// Every algebraic component is canonical.
    pub open spec fn wf(self) -> bool {
        self.commitment.wf() && self.outgoing_note.wf()
    }

    /// `raw` is the unique wire encoding of this nullifier.
    pub open spec fn matches_raw(self, raw: RawNulllifier) -> bool {
        &&& raw.nullifier.commitment == self.commitment.bytes
        &&& self.outgoing_note.matches_raw(raw.outgoing_note)
    }
}

/// A merkle membership path: sibling digest, leaf index, inner digests.
#[derive(Clone, Debug, PartialEq, Eq)]
pub struct CurrentPath {
    /// The sibling digest of the leaf.
    pub sibling_digest: FieldElement,
    /// The index of the leaf.
    pub leaf_index: u32,
    /// The inner digests, ordered from leaf to root.
    pub inner_path: Vec<FieldElement>,
}

impl CurrentPath {
    /// Every algebraic component is canonical.
    pub open spec fn wf(self) -> bool {
        &&& self.sibling_digest.wf()
        &&& forall|i: int| 0 <= i < self.inner_path@.len() ==> self.inner_path@[i].wf()
    }

    /// The path's content as plain values: sibling digest, leaf index, and
    /// the inner digests.
    pub open spec fn digests(self) -> (FieldElement, u32, Seq<FieldElement>) {
        (self.sibling_digest, self.leaf_index, self.inner_path@)
    }

    /// `raw` is the unique wire encoding of this path.
    pub open spec fn matches_raw(self, raw: RawCurrentPath) -> bool {
        &&& raw.sibling_digest == self.sibling_digest.bytes
        &&& raw.leaf_index == self.leaf_index
        &&& raw.inner_path@.len() == self.inner_path@.len()
        &&& forall|i: int|
            0 <= i < self.inner_path@.len() ==> raw.inner_path@[i] == self.inner_path@[i].bytes
    }
}

/// The payload of one incremental pull: receiver entries and nullifiers.
#[derive(Clone, Debug, PartialEq, Eq)]
pub struct SyncData {
    /// Receiver entries: one UTXO with its full incoming note each.
    pub utxo_note_data: Vec<(Utxo, FullIncomingNote)>,
    /// Nullifiers of spent UTXOs.
    pub nullifier_data: Vec<Nullifier>,
}

impl SyncData {
    /// Every algebraic component is canonical.
    pub open spec fn wf(self) -> bool {
        &&& forall|i: int|
            0 <= i < self.utxo_note_data@.len() ==> {
                &&& (#[trigger] self.utxo_note_data@[i]).0.wf()
                &&& self.utxo_note_data@[i].1.wf()
            }
        &&& forall|i: int|
            0 <= i < self.nullifier_data@.len() ==> (#[trigger] self.nullifier_data@[i]).wf()
    }
}

/// A decoded incremental pull response.
#[derive(Clone, Debug, PartialEq, Eq)]
pub struct PullResponse {
    /// Whether more data remains after this response.
    pub should_continue: bool,
    /// The decoded payload.
    pub data: SyncData,
}

impl PullResponse {
    /// Every algebraic component is canonical.
    pub open spec fn wf(self) -> bool {
        self.data.wf()
    }

    /// `raw` is the unique wire encoding of this response.
    pub open spec fn matches_raw(self, raw: RawPullResponse) -> bool {
        &&& raw.should_continue == self.should_continue
        &&& raw.receivers@.len() == self.data.utxo_note_data@.len()
        &&& forall|i: int|
            0 <= i < self.data.utxo_note_data@.len() ==> {
                &&& (#[trigger] self.data.utxo_note_data@[i]).0.matches_raw(raw.receivers@[i].0)
                &&& self.data.utxo_note_data@[i].1.matches_raw(raw.receivers@[i].1)
            }
        &&& raw.senders@.len() == self.data.nullifier_data@.len()
        &&& forall|i: int|
            0 <= i < self.data.nullifier_data@.len() ==> {
                &&& raw.senders@[i].0 == (#[trigger] self.data.nullifier_data@[i]).commitment.bytes
                &&& self.data.nullifier_data@[i].outgoing_note.matches_raw(raw.senders@[i].1)
            }
    }
}

/// The payload of a from-scratch resynchronization.
#[derive(Clone, Debug, PartialEq, Eq)]
pub struct InitialSyncData {
    /// All UTXOs on the ledger.
    pub utxo_data: Vec<Utxo>,
    /// Membership paths for the accumulator.
    pub membership_proof_data: Vec<CurrentPath>,
    /// Total number of nullifiers on the ledger.
    pub nullifier_count: u128,
}

impl InitialSyncData {
    /// Every algebraic component is canonical.
    pub open spec fn wf(self) -> bool {
        &&& forall|i: int| 0 <= i < self.utxo_data@.len() ==> (#[trigger] self.utxo_data@[i]).wf()
        &&& forall|i: int|
            0 <= i < self.membership_proof_data@.len() ==> (
            #[trigger] self.membership_proof_data@[i]).wf()
    }
}

/// A decoded from-scratch pull response.
#[derive(Clone, Debug, PartialEq, Eq)]
pub struct InitialPullResponse {
    /// Whether more data remains after this response.
    pub should_continue: bool,
    /// The decoded payload.
    pub data: InitialSyncData,
}

impl InitialPullResponse {
    /// Every algebraic component is canonical.
    pub open spec fn wf(self) -> bool {
        self.data.wf()
    }

    /// `raw` is the unique wire encoding of this response.
    pub open spec fn matches_raw(self, raw: RawInitialPullResponse) -> bool {
        &&& raw.should_continue == self.should_continue
        &&& raw.nullifier_count == self.data.nullifier_count
        &&& raw.utxo_data@.len() == self.data.utxo_data@.len()
        &&& forall|i: int|
            0 <= i < self.data.utxo_data@.len() ==> (#[trigger] self.data.utxo_data@[i]).matches_raw(
                raw.utxo_data@[i],
            )
        &&& raw.membership_proof_data@.len() == self.data.membership_proof_data@.len()
        &&& forall|i: int|
            0 <= i < self.data.membership_proof_data@.len() ==> (
            #[trigger] self.data.membership_proof_data@[i]).matches_raw(
                raw.membership_proof_data@[i],
            )
    }
}

/// An authorization signature: key plus Schnorr signature.
#[derive(Clone, Copy, Debug, PartialEq, Eq, Hash)]
pub struct AuthorizationSignature {
    /// The authorization key.
    pub authorization_key: GroupElement,
    /// The signature scalar.
    pub scalar: FieldElement,
    /// The signature nonce point.
    pub nonce_point: GroupElement,
}

impl AuthorizationSignature {
    /// Every algebraic component is canonical.
    pub open spec fn wf(self) -> bool {
        self.authorization_key.wf() && self.scalar.wf() && self.nonce_point.wf()
    }

    /// `raw` is the unique wire encoding of this signature.
    pub open spec fn matches_raw(self, raw: RawAuthorizationSignature) -> bool {
        &&& raw.authorization_key == self.authorization_key.bytes
        &&& raw.signature.0 == self.scalar.bytes
        &&& raw.signature.1 == self.nonce_point.bytes
    }
}

/// A sender post of a transfer.
#[derive(Clone, Copy, Debug, PartialEq, Eq, Hash)]
pub struct SenderPost {
    /// The accumulator root the spend proof was built against.
    pub utxo_accumulator_output: FieldElement,
    /// The nullifier of the spent UTXO.
    pub nullifier: Nullifier,
}

impl SenderPost {
    /// Every algebraic component is canonical.
    pub open spec fn wf(self) -> bool {
        self.utxo_accumulator_output.wf() && self.nullifier.wf()
    }

    /// `raw` is the unique wire encoding of this post.
    pub open spec fn matches_raw(self, raw: RawSenderPost) -> bool {
        &&& raw.utxo_accumulator_output == self.utxo_accumulator_output.bytes
        &&& self.nullifier.matches_raw(raw.nullifier)
    }
}

/// A receiver post of a transfer.
#[derive(Clone, Copy, Debug, PartialEq, Eq, Hash)]
pub struct ReceiverPost {
    /// The created UTXO.
    pub utxo: Utxo,
    /// Its full incoming note.
    pub note: FullIncomingNote,
}

impl ReceiverPost {
    /// Every algebraic component is canonical.
    pub open spec fn wf(self) -> bool {
        self.utxo.wf() && self.note.wf()
    }

    /// `raw` is the unique wire encoding of this post.
    pub open spec fn matches_raw(self, raw: RawReceiverPost) -> bool {
        &&& self.utxo.matches_raw(raw.utxo)
        &&& self.note.matches_raw(raw.full_incoming_note)
    }
}

/// A transfer post: the signed, proof-carrying unit submitted to the ledger.
#[derive(Clone, Debug, PartialEq, Eq)]
pub struct TransferPost {
    /// The authorization signature, when the transfer spends.
    pub authorization_signature: Option<AuthorizationSignature>,
    /// The asset moved by the transfer.
    pub asset_id: Option<FieldElement>,
    /// Public source values.
    pub sources: Vec<u128>,
    /// Sender posts.
    pub sender_posts: Vec<SenderPost>,
    /// Receiver posts.
    pub receiver_posts: Vec<ReceiverPost>,
    /// Public sink values.
    pub sinks: Vec<u128>,
    /// The validity proof, opaque to the wallet.
    pub proof: Vec<u8>,
    /// Public sink account identifiers.
    pub sink_accounts: Vec<[u8; 32]>,
}

impl TransferPost {
    /// Every algebraic component is canonical.
    pub open spec fn wf(self) -> bool {
        &&& match self.authorization_signature {
            Some(sig) => sig.wf(),
            None => true,
        }
        &&& match self.asset_id {
            Some(id) => fp_valid(id.bytes@),
            None => true,
        }
        &&& forall|i: int|
            0 <= i < self.sender_posts@.len() ==> (#[trigger] self.sender_posts@[i]).wf()
        &&& forall|i: int|
            0 <= i < self.receiver_posts@.len() ==> (#[trigger] self.receiver_posts@[i]).wf()
    }
}

/// A UTXO identifier: what the owner needs to re-derive the UTXO.
#[derive(Clone, Copy, Debug, PartialEq, Eq, Hash)]
pub struct Identifier {
    /// Whether the identified UTXO is transparent.
    pub is_transparent: bool,
    /// The commitment randomness of the identified UTXO.
    pub utxo_commitment_randomness: FieldElement,
}

/// An asset together with the identifier of the UTXO carrying it.
#[derive(Clone, Copy, Debug, PartialEq, Eq, Hash)]
pub struct IdentifiedAsset {
    /// The UTXO identifier.
    pub identifier: Identifier,
    /// The carried asset.
    pub asset: Asset,
}

impl IdentifiedAsset {
    /// Pairs an identifier with its asset.
    pub fn new(identifier: Identifier, asset: Asset) -> (r: IdentifiedAsset)
        ensures
            r.identifier == identifier,
            r.asset == asset,
    {
        IdentifiedAsset { identifier, asset }
    }
}

/// A receiving address of the shielded protocol.
#[derive(Clone, Copy, Debug, PartialEq, Eq, Hash)]
pub struct Address {
    /// The receiving key.
    pub receiver: GroupElement,
}

/// A canonical transaction, as the host asks the wallet to sign it.
#[derive(Clone, Copy, Debug, PartialEq, Eq)]
pub enum Transaction {
    /// Move a public asset into the shielded pool.
    ToPrivate(Asset),
    /// Move a shielded asset to another shielded address.
    PrivateTransfer(Asset, Address),
    /// Move a shielded asset out into a public account.
    ToPublic(Asset),
}

impl Transaction {
    /// The shielded asset the transaction spends, if it spends one.
    ///
    /// Receiving into the pool spends nothing shielded; a private transfer
    /// or a withdrawal spends the named asset.
    pub open spec fn spends(self) -> Option<Asset> {
        match self {
            Transaction::ToPrivate(_) => None,
            Transaction::PrivateTransfer(asset, _) => Some(asset),
            Transaction::ToPublic(asset) => Some(asset),
        }
    }
}

} // verus!
