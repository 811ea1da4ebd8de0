//! Protocol parameter blobs, validated by their pinned byte lengths.
//!
//! The cryptographic parameter set of the protocol arrives as opaque byte
//! blobs whose sizes are protocol-version-pinned constants. The containers
//! here check those lengths and hand the blobs through unchanged; the
//! host's prover and signer consume them.

use vstd::prelude::*;
use vstd::slice::slice_to_vec;

verus! {

/// Pinned size of the address partition function blob.
pub const ADDRESS_PARTITION_FUNCTION_SIZE: usize = 0;

/// Pinned size of the group generator blob.
pub const GROUP_GENERATOR_SIZE: usize = 32;

/// Pinned size of the incoming base encryption scheme blob.
pub const INCOMING_BASE_ENCRYPTION_SCHEME_SIZE: usize = 8712;

/// Pinned size of the light incoming base encryption scheme blob.
pub const LIGHT_INCOMING_BASE_ENCRYPTION_SCHEME_SIZE: usize = 0;

/// Pinned size of the nullifier commitment scheme blob.
pub const NULLIFIER_COMMITMENT_SCHEME_SIZE: usize = 8608;

/// Pinned size of the outgoing base encryption scheme blob.
pub const OUTGOING_BASE_ENCRYPTION_SCHEME_SIZE: usize = 0;

/// Pinned size of the Schnorr hash function blob.
pub const SCHNORR_HASH_FUNCTION_SIZE: usize = 0;

/// Pinned size of the UTXO accumulator item hash blob.
pub const UTXO_ACCUMULATOR_ITEM_HASH_SIZE: usize = 11072;

/// Pinned size of the UTXO accumulator model blob.
pub const UTXO_ACCUMULATOR_MODEL_SIZE: usize = 6368;

/// Pinned size of the UTXO commitment scheme blob.
pub const UTXO_COMMITMENT_SCHEME_SIZE: usize = 13472;

/// Pinned size of the viewing key derivation function blob.
pub const VIEWING_KEY_DERIVATION_FUNCTION_SIZE: usize = 6368;

/// Pinned size of the to-private proving context blob.
pub const TO_PRIVATE_SIZE: usize = 3690160;

/// Pinned size of the private-transfer proving context blob.
pub const PRIVATE_TRANSFER_SIZE: usize = 15450928;

/// Pinned size of the to-public proving context blob.
pub const TO_PUBLIC_SIZE: usize = 11040176;

/// The raw protocol parameter set: one blob per scheme.
#[derive(Clone, Debug, PartialEq, Eq)]
pub struct RawFullParameters {
    /// Address partition function blob.
    pub address_partition_function: Vec<u8>,
    /// Group generator blob.
    pub group_generator: Vec<u8>,
    /// Incoming base encryption scheme blob.
    pub incoming_base_encryption_scheme: Vec<u8>,
    /// Light incoming base encryption scheme blob.
    pub light_incoming_base_encryption_scheme: Vec<u8>,
    /// Nullifier commitment scheme blob.
    pub nullifier_commitment_scheme: Vec<u8>,
    /// Outgoing base encryption scheme blob.
    pub outgoing_base_encryption_scheme: Vec<u8>,
    /// Schnorr hash function blob.
    pub schnorr_hash_function: Vec<u8>,
    /// UTXO accumulator item hash blob.
    pub utxo_accumulator_item_hash: Vec<u8>,
    /// UTXO accumulator model blob.
    pub utxo_accumulator_model: Vec<u8>,
    /// UTXO commitment scheme blob.
    pub utxo_commitment_scheme: Vec<u8>,
    /// Viewing key derivation function blob.
    pub viewing_key_derivation_function: Vec<u8>,
}

impl RawFullParameters {
    /// Every blob has its protocol-pinned size.
    pub open spec fn wf(self) -> bool {
        &&& self.address_partition_function@.len() == ADDRESS_PARTITION_FUNCTION_SIZE
        &&& self.group_generator@.len() == GROUP_GENERATOR_SIZE
        &&& self.incoming_base_encryption_scheme@.len() == INCOMING_BASE_ENCRYPTION_SCHEME_SIZE
        &&& self.light_incoming_base_encryption_scheme@.len()
            == LIGHT_INCOMING_BASE_ENCRYPTION_SCHEME_SIZE
        &&& self.nullifier_commitment_scheme@.len() == NULLIFIER_COMMITMENT_SCHEME_SIZE
        &&& self.outgoing_base_encryption_scheme@.len() == OUTGOING_BASE_ENCRYPTION_SCHEME_SIZE
        &&& self.schnorr_hash_function@.len() == SCHNORR_HASH_FUNCTION_SIZE
        &&& self.utxo_accumulator_item_hash@.len() == UTXO_ACCUMULATOR_ITEM_HASH_SIZE
        &&& self.utxo_accumulator_model@.len() == UTXO_ACCUMULATOR_MODEL_SIZE
        &&& self.utxo_commitment_scheme@.len() == UTXO_COMMITMENT_SCHEME_SIZE
        &&& self.viewing_key_derivation_function@.len() == VIEWING_KEY_DERIVATION_FUNCTION_SIZE
    }

    /// Builds the parameter set without checking blob sizes.
    pub fn new_unchecked(
        address_partition_function: &[u8],
        group_generator: &[u8],
        incoming_base_encryption_scheme: &[u8],
        light_incoming_base_encryption_scheme: &[u8],
        nullifier_commitment_scheme: &[u8],
        outgoing_base_encryption_scheme: &[u8],
        schnorr_hash_function: &[u8],
        utxo_accumulator_item_hash: &[u8],
        utxo_accumulator_model: &[u8],
        utxo_commitment_scheme: &[u8],
        viewing_key_derivation_function: &[u8],
    ) -> (r: RawFullParameters)
        ensures
            r.address_partition_function@ == address_partition_function@,
            r.group_generator@ == group_generator@,
            r.incoming_base_encryption_scheme@ == incoming_base_encryption_scheme@,
            r.light_incoming_base_encryption_scheme@ == light_incoming_base_encryption_scheme@,
            r.nullifier_commitment_scheme@ == nullifier_commitment_scheme@,
            r.outgoing_base_encryption_scheme@ == outgoing_base_encryption_scheme@,
            r.schnorr_hash_function@ == schnorr_hash_function@,
            r.utxo_accumulator_item_hash@ == utxo_accumulator_item_hash@,
            r.utxo_accumulator_model@ == utxo_accumulator_model@,
            r.utxo_commitment_scheme@ == utxo_commitment_scheme@,
            r.viewing_key_derivation_function@ == viewing_key_derivation_function@,
    {
        RawFullParameters {
            address_partition_function: slice_to_vec(address_partition_function),
            group_generator: slice_to_vec(group_generator),
            incoming_base_encryption_scheme: slice_to_vec(incoming_base_encryption_scheme),
            light_incoming_base_encryption_scheme: slice_to_vec(
                light_incoming_base_encryption_scheme,
            ),
            nullifier_commitment_scheme: slice_to_vec(nullifier_commitment_scheme),
            outgoing_base_encryption_scheme: slice_to_vec(outgoing_base_encryption_scheme),
            schnorr_hash_function: slice_to_vec(schnorr_hash_function),
            utxo_accumulator_item_hash: slice_to_vec(utxo_accumulator_item_hash),
            utxo_accumulator_model: slice_to_vec(utxo_accumulator_model),
            utxo_commitment_scheme: slice_to_vec(utxo_commitment_scheme),
            viewing_key_derivation_function: slice_to_vec(viewing_key_derivation_function),
        }
    }

    /// Builds the parameter set from its blobs, each of which must already
    /// have its protocol-pinned size.
    pub fn new(
        address_partition_function: &[u8],
        group_generator: &[u8],
        incoming_base_encryption_scheme: &[u8],
        light_incoming_base_encryption_scheme: &[u8],
        nullifier_commitment_scheme: &[u8],
        outgoing_base_encryption_scheme: &[u8],
        schnorr_hash_function: &[u8],
        utxo_accumulator_item_hash: &[u8],
        utxo_accumulator_model: &[u8],
        utxo_commitment_scheme: &[u8],
        viewing_key_derivation_function: &[u8],
    ) -> (r: RawFullParameters)
        requires
            address_partition_function@.len() == ADDRESS_PARTITION_FUNCTION_SIZE,
            group_generator@.len() == GROUP_GENERATOR_SIZE,
            incoming_base_encryption_scheme@.len() == INCOMING_BASE_ENCRYPTION_SCHEME_SIZE,
            light_incoming_base_encryption_scheme@.len()
                == LIGHT_INCOMING_BASE_ENCRYPTION_SCHEME_SIZE,
            nullifier_commitment_scheme@.len() == NULLIFIER_COMMITMENT_SCHEME_SIZE,
            outgoing_base_encryption_scheme@.len() == OUTGOING_BASE_ENCRYPTION_SCHEME_SIZE,
            schnorr_hash_function@.len() == SCHNORR_HASH_FUNCTION_SIZE,
            utxo_accumulator_item_hash@.len() == UTXO_ACCUMULATOR_ITEM_HASH_SIZE,
            utxo_accumulator_model@.len() == UTXO_ACCUMULATOR_MODEL_SIZE,
            utxo_commitment_scheme@.len() == UTXO_COMMITMENT_SCHEME_SIZE,
            viewing_key_derivation_function@.len() == VIEWING_KEY_DERIVATION_FUNCTION_SIZE,
        ensures
            r.wf(),
            r.group_generator@ == group_generator@,
            r.incoming_base_encryption_scheme@ == incoming_base_encryption_scheme@,
            r.nullifier_commitment_scheme@ == nullifier_commitment_scheme@,
            r.utxo_accumulator_item_hash@ == utxo_accumulator_item_hash@,
            r.utxo_accumulator_model@ == utxo_accumulator_model@,
            r.utxo_commitment_scheme@ == utxo_commitment_scheme@,
            r.viewing_key_derivation_function@ == viewing_key_derivation_function@,
    {
        Self::new_unchecked(
            address_partition_function,
            group_generator,
            incoming_base_encryption_scheme,
            light_incoming_base_encryption_scheme,
            nullifier_commitment_scheme,
            outgoing_base_encryption_scheme,
            schnorr_hash_function,
            utxo_accumulator_item_hash,
            utxo_accumulator_model,
            utxo_commitment_scheme,
            viewing_key_derivation_function,
        )
    }
}

/// The raw multi-proving context: one proving blob per transfer shape.
#[derive(Clone, Debug, PartialEq, Eq)]
pub struct RawMultiProvingContext {
    /// To-private proving context blob.
    pub to_private: Vec<u8>,
    /// Private-transfer proving context blob.
    pub private_transfer: Vec<u8>,
    /// To-public proving context blob.
    pub to_public: Vec<u8>,
}

impl RawMultiProvingContext {
    /// Every blob has its protocol-pinned size.
    pub open spec fn wf(self) -> bool {
        &&& self.to_private@.len() == TO_PRIVATE_SIZE
        &&& self.private_transfer@.len() == PRIVATE_TRANSFER_SIZE
        &&& self.to_public@.len() == TO_PUBLIC_SIZE
    }

    /// Builds the proving context without checking blob sizes.
    pub fn new_unchecked(to_private: &[u8], private_transfer: &[u8], to_public: &[u8]) -> (r:
        RawMultiProvingContext)
        ensures
            r.to_private@ == to_private@,
            r.private_transfer@ == private_transfer@,
            r.to_public@ == to_public@,
    {
        RawMultiProvingContext {
            to_private: slice_to_vec(to_private),
            private_transfer: slice_to_vec(private_transfer),
            to_public: slice_to_vec(to_public),
        }
    }

    /// Builds the proving context from its blobs, each of which must
    /// already have its protocol-pinned size.
    pub fn new(to_private: &[u8], private_transfer: &[u8], to_public: &[u8]) -> (r:
        RawMultiProvingContext)
        requires
            to_private@.len() == TO_PRIVATE_SIZE,
            private_transfer@.len() == PRIVATE_TRANSFER_SIZE,
            to_public@.len() == TO_PUBLIC_SIZE,
        ensures
            r.wf(),
            r.to_private@ == to_private@,
            r.private_transfer@ == private_transfer@,
            r.to_public@ == to_public@,
    {
        Self::new_unchecked(to_private, private_transfer, to_public)
    }
}

} // verus!
