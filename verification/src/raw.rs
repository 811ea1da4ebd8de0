//! Raw wire structures, exactly as the ledger serves them.
//!
//! Every field has a protocol-pinned fixed byte length; a group element is
//! exactly 32 bytes, an asset value exactly 16. The structures here hold
//! bytes only; `codec` turns them into typed values and back.

use vstd::prelude::*;

verus! {

/// Raw asset identifier: the 32-byte encoding of a field element.
pub type RawAssetId = [u8; 32];

/// Raw asset value: a 128-bit unsigned integer in little-endian bytes.
pub type RawAssetValue = [u8; 16];

/// Raw UTXO commitment: the 32-byte encoding of a field element.
pub type RawUtxoCommitment = [u8; 32];

/// Raw merkle leaf digest: the 32-byte encoding of a field element.
pub type RawLeafDigest = [u8; 32];

/// Raw merkle inner digest: the 32-byte encoding of a field element.
pub type RawInnerDigest = [u8; 32];

/// A raw asset: identifier and value.
#[derive(Clone, Copy, Debug, PartialEq, Eq, Hash)]
#[verifier::ext_equal]
pub struct RawAsset {
    /// Asset identifier bytes.
    pub id: RawAssetId,
    /// Asset value bytes, little-endian.
    pub value: RawAssetValue,
}

/// A raw nullifier commitment.
#[derive(Clone, Copy, Debug, PartialEq, Eq, Hash)]
#[verifier::ext_equal]
pub struct RawNullifierCommitment {
    /// Commitment bytes.
    pub commitment: [u8; 32],
}

/// A raw UTXO: transparency flag, public asset, and binding commitment.
#[derive(Clone, Copy, Debug, PartialEq, Eq, Hash)]
#[verifier::ext_equal]
pub struct RawUtxo {
    /// Whether the UTXO is transparent.
    pub is_transparent: bool,
    /// The public asset (meaningful for transparent UTXOs).
    pub public_asset: RawAsset,
    /// The UTXO commitment bytes.
    pub commitment: RawUtxoCommitment,
}

/// A raw light incoming note: ephemeral key and three ciphertext blocks.
#[derive(Clone, Copy, Debug, PartialEq, Eq, Hash)]
#[verifier::ext_equal]
pub struct RawLightIncomingNote {
    /// Ephemeral public key bytes.
    pub ephemeral_public_key: [u8; 32],
    /// Ciphertext: three 32-byte blocks.
    pub ciphertext: [[u8; 32]; 3],
}

/// A raw incoming note: ephemeral key, authentication tag, and ciphertext.
#[derive(Clone, Copy, Debug, PartialEq, Eq, Hash)]
#[verifier::ext_equal]
pub struct RawIncomingNote {
    /// Ephemeral public key bytes.
    pub ephemeral_public_key: [u8; 32],
    /// Authentication tag bytes.
    pub tag: [u8; 32],
    /// Ciphertext: three 32-byte blocks, each a field element encoding.
    pub ciphertext: [[u8; 32]; 3],
}

/// A raw outgoing note: ephemeral key and two ciphertext blocks.
#[derive(Clone, Copy, Debug, PartialEq, Eq, Hash)]
#[verifier::ext_equal]
pub struct RawOutgoingNote {
    /// Ephemeral public key bytes.
    pub ephemeral_public_key: [u8; 32],
    /// Ciphertext: two 32-byte blocks.
    pub ciphertext: [[u8; 32]; 2],
}

/// A raw nullifier: commitment plus outgoing note.
#[derive(Clone, Copy, Debug, PartialEq, Eq, Hash)]
#[verifier::ext_equal]
pub struct RawNulllifier {
    /// The nullifier commitment.
    pub nullifier: RawNullifierCommitment,
    /// The outgoing note of the spent UTXO.
    pub outgoing_note: RawOutgoingNote,
}

/// A raw full incoming note: address partition plus both note variants.
#[derive(Clone, Copy, Debug, PartialEq, Eq, Hash)]
#[verifier::ext_equal]
pub struct RawFullIncomingNote {
    /// Address partition byte.
    pub address_partition: u8,
    /// The incoming note.
    pub incoming_note: RawIncomingNote,
    /// The light incoming note.
    pub light_incoming_note: RawLightIncomingNote,
}

/// A raw incremental pull response.
#[derive(Clone, Debug, PartialEq, Eq)]
#[verifier::ext_equal]
pub struct RawPullResponse {
    /// Whether more data remains after this response.
    pub should_continue: bool,
    /// Receiver entries: one UTXO with its full incoming note each.
    pub receivers: Vec<(RawUtxo, RawFullIncomingNote)>,
    /// Sender entries: one UTXO commitment with its outgoing note each.
    pub senders: Vec<(RawUtxoCommitment, RawOutgoingNote)>,
}

/// A raw merkle membership path.
#[derive(Clone, Debug, PartialEq, Eq)]
#[verifier::ext_equal]
pub struct RawCurrentPath {
    /// Sibling digest of the leaf.
    pub sibling_digest: RawLeafDigest,
    /// Index of the leaf in the tree.
    pub leaf_index: u32,
    /// Inner digests, ordered from leaf to root.
    pub inner_path: Vec<RawInnerDigest>,
}

/// A raw from-scratch pull response.
#[derive(Clone, Debug, PartialEq, Eq)]
#[verifier::ext_equal]
pub struct RawInitialPullResponse {
    /// Whether more data remains after this response.
    pub should_continue: bool,
    /// All UTXOs served by this response.
    pub utxo_data: Vec<RawUtxo>,
    /// Membership paths served by this response.
    pub membership_proof_data: Vec<RawCurrentPath>,
    /// Total number of nullifiers on the ledger.
    pub nullifier_count: u128,
}

/// A raw receiver post of a transfer.
#[derive(Clone, Copy, Debug, PartialEq, Eq, Hash)]
#[verifier::ext_equal]
pub struct RawReceiverPost {
    /// The created UTXO.
    pub utxo: RawUtxo,
    /// Its full incoming note.
    pub full_incoming_note: RawFullIncomingNote,
}

/// A raw sender post of a transfer.
#[derive(Clone, Copy, Debug, PartialEq, Eq, Hash)]
#[verifier::ext_equal]
pub struct RawSenderPost {
    /// The accumulator root the spend proof was built against.
    pub utxo_accumulator_output: RawInnerDigest,
    /// The nullifier of the spent UTXO.
    pub nullifier: RawNulllifier,
}

/// A raw authorization signature: key plus Schnorr signature pair.
#[derive(Clone, Copy, Debug, PartialEq, Eq, Hash)]
#[verifier::ext_equal]
pub struct RawAuthorizationSignature {
    /// Authorization key bytes.
    pub authorization_key: [u8; 32],
    /// Signature: scalar bytes and nonce point bytes.
    pub signature: ([u8; 32], [u8; 32]),
}

} // verus!
