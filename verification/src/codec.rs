//! Conversion between raw wire structures and typed values.
//!
//! Every `try_into` validates each algebraic component and fails with a
//! [`DecodeError`] exactly when one is not canonical, building nothing and
//! touching no wallet state. Every `to_raw` is the exact inverse; the
//! `lemma_*_round_trip` proofs state that a typed value has one raw
//! encoding, so decoding and then encoding returns the original input.

use vstd::bytes::{lemma_auto_spec_u128_to_from_le_bytes, u128_from_le_bytes, u128_to_le_bytes};
use vstd::prelude::*;

use crate::algebra::FieldElement;
use crate::errors::DecodeError;
use crate::raw::{
    RawAsset, RawAssetValue, RawAuthorizationSignature, RawCurrentPath, RawFullIncomingNote, RawIncomingNote,
    RawInitialPullResponse, RawLightIncomingNote, RawNulllifier, RawNullifierCommitment,
    RawOutgoingNote, RawPullResponse, RawReceiverPost, RawSenderPost, RawUtxo,
};
use crate::typed::{
    Asset, AuthorizationSignature, CurrentPath, FullIncomingNote, IncomingNote, InitialPullResponse,
    InitialSyncData, LightIncomingNote, Nullifier, OutgoingNote, PullResponse, ReceiverPost,
    SenderPost, SyncData, Utxo,
};

verus! {

/// Copies a 16-byte vector into a fixed array.
pub(crate) fn copy_to_array16(bytes: &Vec<u8>) -> (r: [u8; 16])
    requires
        bytes@.len() == 16,
    ensures
        r@ == bytes@,
{
    let mut arr: [u8; 16] = [0; 16];
    let mut i: usize = 0;
    while i < 16
        invariant
            0 <= i <= 16,
            bytes@.len() == 16,
            forall|j: int| 0 <= j < i ==> arr@[j] == bytes@[j],
        decreases 16 - i,
    {
        arr[i] = bytes[i];
        i += 1;
    }
    proof {
        assert(arr@ =~= bytes@);
    }
    arr
}

impl RawAsset {
    /// The raw asset decodes: its identifier is a canonical field element.
    pub open spec fn valid(self) -> bool {
        crate::algebra::fp_valid(self.id@)
    }

    /// Decodes the raw asset into a typed [`Asset`].
    pub fn try_into(self) -> (r: Result<Asset, DecodeError>)
        ensures
            match r {
                Ok(a) => self.valid() && a.wf() && a.matches_raw(self),
                Err(e) => !self.valid() && e == DecodeError::NonCanonical,
            },
    {
        let id = FieldElement::from_bytes(&self.id)?;
        let value = u128_from_le_bytes(self.value.as_slice());
        proof {
            lemma_auto_spec_u128_to_from_le_bytes();
        }
        Ok(Asset { id, value })
    }
}

impl Asset {
    /// Encodes the asset back into its raw wire form.
    pub fn to_raw(&self) -> (r: RawAsset)
        ensures
            self.matches_raw(r),
    {
        let value_vec = u128_to_le_bytes(self.value);
        RawAsset { id: self.id.bytes, value: copy_to_array16(&value_vec) }
    }
}

/// Round-trip law: a typed asset has exactly one raw encoding. Together
/// with the contracts of `RawAsset::try_into` and `Asset::to_raw`, this
/// says that decoding a valid raw asset and re-encoding the result gives
/// back the original bytes.
pub proof fn lemma_asset_round_trip(a: Asset, r1: RawAsset, r2: RawAsset)
    requires
        a.matches_raw(r1),
        a.matches_raw(r2),
    ensures
        r1 == r2,
{
    assert(r1.value =~= r2.value);
    assert(r1 =~= r2);
}

impl RawUtxo {
    /// The raw UTXO decodes: its asset identifier and commitment are canonical.
    pub open spec fn valid(self) -> bool {
        self.public_asset.valid() && crate::algebra::fp_valid(self.commitment@)
    }

    /// Decodes the raw UTXO into a typed [`Utxo`].
    pub fn try_into(self) -> (r: Result<Utxo, DecodeError>)
        ensures
            match r {
                Ok(u) => self.valid() && u.wf() && u.matches_raw(self),
                Err(e) => !self.valid() && e == DecodeError::NonCanonical,
            },
    {
        let public_asset = self.public_asset.try_into()?;
        let commitment = FieldElement::from_bytes(&self.commitment)?;
        Ok(Utxo { is_transparent: self.is_transparent, public_asset, commitment })
    }
}

impl Utxo {
    /// Encodes the UTXO back into its raw wire form.
    pub fn to_raw(&self) -> (r: RawUtxo)
        ensures
            self.matches_raw(r),
    {
        RawUtxo {
            is_transparent: self.is_transparent,
            public_asset: self.public_asset.to_raw(),
            commitment: self.commitment.bytes,
        }
    }
}

/// Round-trip law: a typed UTXO has exactly one raw encoding.
pub proof fn lemma_utxo_round_trip(u: Utxo, r1: RawUtxo, r2: RawUtxo)
    requires
        u.matches_raw(r1),
        u.matches_raw(r2),
    ensures
        r1 == r2,
{
    lemma_asset_round_trip(u.public_asset, r1.public_asset, r2.public_asset);
    assert(r1 =~= r2);
}

impl RawNullifierCommitment {
    /// The raw commitment decodes: its bytes are a canonical field element.
    pub open spec fn valid(self) -> bool {
        crate::algebra::fp_valid(self.commitment@)
    }

    /// Decodes the commitment into a field element.
    pub fn try_into(self) -> (r: Result<FieldElement, DecodeError>)
        ensures
            match r {
                Ok(fe) => self.valid() && fe.wf() && fe.bytes == self.commitment,
                Err(e) => !self.valid() && e == DecodeError::NonCanonical,
            },
    {
        FieldElement::from_bytes(&self.commitment)
    }
}

impl RawIncomingNote {
    /// The raw note decodes: key, tag, and every ciphertext block are canonical.
    pub open spec fn valid(self) -> bool {
        &&& crate::algebra::group_valid(self.ephemeral_public_key@)
        &&& crate::algebra::fp_valid(self.tag@)
        &&& forall|i: int| 0 <= i < 3 ==> crate::algebra::fp_valid(self.ciphertext@[i]@)
    }

    /// Decodes the raw note into a typed [`IncomingNote`].
    pub fn try_into(self) -> (r: Result<IncomingNote, DecodeError>)
        ensures
            match r {
                Ok(n) => self.valid() && n.wf() && n.matches_raw(self),
                Err(e) => !self.valid() && e == DecodeError::NonCanonical,
            },
    {
        let ephemeral_public_key = crate::algebra::GroupElement::from_bytes(
            &self.ephemeral_public_key,
        )?;
        let tag = FieldElement::from_bytes(&self.tag)?;
        let c0 = FieldElement::from_bytes(&self.ciphertext[0])?;
        let c1 = FieldElement::from_bytes(&self.ciphertext[1])?;
        let c2 = FieldElement::from_bytes(&self.ciphertext[2])?;
        Ok(IncomingNote { ephemeral_public_key, tag, ciphertext: [c0, c1, c2] })
    }
}

impl IncomingNote {
    /// Encodes the note back into its raw wire form.
    pub fn to_raw(&self) -> (r: RawIncomingNote)
        ensures
            self.matches_raw(r),
    {
        RawIncomingNote {
            ephemeral_public_key: self.ephemeral_public_key.bytes,
            tag: self.tag.bytes,
            ciphertext: [
                self.ciphertext[0].bytes,
                self.ciphertext[1].bytes,
                self.ciphertext[2].bytes,
            ],
        }
    }
}

/// Round-trip law: a typed incoming note has exactly one raw encoding.
pub proof fn lemma_incoming_note_round_trip(n: IncomingNote, r1: RawIncomingNote, r2: RawIncomingNote)
    requires
        n.matches_raw(r1),
        n.matches_raw(r2),
    ensures
        r1 == r2,
{
    assert(r1.ciphertext =~= r2.ciphertext);
    assert(r1 =~= r2);
}

impl RawLightIncomingNote {
    /// The raw note decodes: its ephemeral key is a canonical group element.
    pub open spec fn valid(self) -> bool {
        crate::algebra::group_valid(self.ephemeral_public_key@)
    }

    /// Decodes the raw note into a typed [`LightIncomingNote`].
    pub fn try_into(self) -> (r: Result<LightIncomingNote, DecodeError>)
        ensures
            match r {
                Ok(n) => self.valid() && n.wf() && n.matches_raw(self),
                Err(e) => !self.valid() && e == DecodeError::NonCanonical,
            },
    {
        let ephemeral_public_key = crate::algebra::GroupElement::from_bytes(
            &self.ephemeral_public_key,
        )?;
        Ok(LightIncomingNote { ephemeral_public_key, ciphertext: self.ciphertext })
    }
}

impl LightIncomingNote {
    /// Encodes the note back into its raw wire form.
    pub fn to_raw(&self) -> (r: RawLightIncomingNote)
        ensures
            self.matches_raw(r),
    {
        RawLightIncomingNote {
            ephemeral_public_key: self.ephemeral_public_key.bytes,
            ciphertext: self.ciphertext,
        }
    }
}

/// Round-trip law: a typed light note has exactly one raw encoding.
pub proof fn lemma_light_incoming_note_round_trip(
    n: LightIncomingNote,
    r1: RawLightIncomingNote,
    r2: RawLightIncomingNote,
)
    requires
        n.matches_raw(r1),
        n.matches_raw(r2),
    ensures
        r1 == r2,
{
    assert(r1 =~= r2);
}

impl RawFullIncomingNote {
    /// The raw note decodes: both contained notes decode.
    pub open spec fn valid(self) -> bool {
        self.incoming_note.valid() && self.light_incoming_note.valid()
    }

    /// Decodes the raw note into a typed [`FullIncomingNote`].
    pub fn try_into(self) -> (r: Result<FullIncomingNote, DecodeError>)
        ensures
            match r {
                Ok(n) => self.valid() && n.wf() && n.matches_raw(self),
                Err(e) => !self.valid() && e == DecodeError::NonCanonical,
            },
    {
        let incoming_note = self.incoming_note.try_into()?;
        let light_incoming_note = self.light_incoming_note.try_into()?;
        Ok(FullIncomingNote {
            address_partition: self.address_partition,
            incoming_note,
            light_incoming_note,
        })
    }
}

impl FullIncomingNote {
    /// Encodes the note back into its raw wire form.
    pub fn to_raw(&self) -> (r: RawFullIncomingNote)
        ensures
            self.matches_raw(r),
    {
        RawFullIncomingNote {
            address_partition: self.address_partition,
            incoming_note: self.incoming_note.to_raw(),
            light_incoming_note: self.light_incoming_note.to_raw(),
        }
    }
}

/// Round-trip law: a typed full incoming note has exactly one raw encoding.
pub proof fn lemma_full_incoming_note_round_trip(
    n: FullIncomingNote,
    r1: RawFullIncomingNote,
    r2: RawFullIncomingNote,
)
    requires
        n.matches_raw(r1),
        n.matches_raw(r2),
    ensures
        r1 == r2,
{
    lemma_incoming_note_round_trip(n.incoming_note, r1.incoming_note, r2.incoming_note);
    lemma_light_incoming_note_round_trip(
        n.light_incoming_note,
        r1.light_incoming_note,
        r2.light_incoming_note,
    );
    assert(r1 =~= r2);
}

impl RawOutgoingNote {
    /// The raw note decodes: its ephemeral key is a canonical group element.
    pub open spec fn valid(self) -> bool {
        crate::algebra::group_valid(self.ephemeral_public_key@)
    }

    /// Decodes the raw note into a typed [`OutgoingNote`].
    pub fn try_into(self) -> (r: Result<OutgoingNote, DecodeError>)
        ensures
            match r {
                Ok(n) => self.valid() && n.wf() && n.matches_raw(self),
                Err(e) => !self.valid() && e == DecodeError::NonCanonical,
            },
    {
        let ephemeral_public_key = crate::algebra::GroupElement::from_bytes(
            &self.ephemeral_public_key,
        )?;
        Ok(OutgoingNote { ephemeral_public_key, ciphertext: self.ciphertext })
    }
}

impl OutgoingNote {
    /// Encodes the note back into its raw wire form.
    pub fn to_raw(&self) -> (r: RawOutgoingNote)
        ensures
            self.matches_raw(r),
    {
        RawOutgoingNote {
            ephemeral_public_key: self.ephemeral_public_key.bytes,
            ciphertext: self.ciphertext,
        }
    }
}

/// Round-trip law: a typed outgoing note has exactly one raw encoding.
pub proof fn lemma_outgoing_note_round_trip(
    n: OutgoingNote,
    r1: RawOutgoingNote,
    r2: RawOutgoingNote,
)
    requires
        n.matches_raw(r1),
        n.matches_raw(r2),
    ensures
        r1 == r2,
{
    assert(r1 =~= r2);
}

impl RawNulllifier {
    /// The raw nullifier decodes: commitment and outgoing note decode.
    pub open spec fn valid(self) -> bool {
        self.nullifier.valid() && self.outgoing_note.valid()
    }

    /// Decodes the raw nullifier into a typed [`Nullifier`].
    pub fn try_into(self) -> (r: Result<Nullifier, DecodeError>)
        ensures
            match r {
                Ok(n) => self.valid() && n.wf() && n.matches_raw(self),
                Err(e) => !self.valid() && e == DecodeError::NonCanonical,
            },
    {
        let commitment = self.nullifier.try_into()?;
        let outgoing_note = self.outgoing_note.try_into()?;
        Ok(Nullifier { commitment, outgoing_note })
    }
}

impl Nullifier {
    /// Encodes the nullifier back into its raw wire form.
    pub fn to_raw(&self) -> (r: RawNulllifier)
        ensures
            self.matches_raw(r),
    {
        RawNulllifier {
            nullifier: RawNullifierCommitment { commitment: self.commitment.bytes },
            outgoing_note: self.outgoing_note.to_raw(),
        }
    }
}

/// Round-trip law: a typed nullifier has exactly one raw encoding.
pub proof fn lemma_nullifier_round_trip(n: Nullifier, r1: RawNulllifier, r2: RawNulllifier)
    requires
        n.matches_raw(r1),
        n.matches_raw(r2),
    ensures
        r1 == r2,
{
    lemma_outgoing_note_round_trip(n.outgoing_note, r1.outgoing_note, r2.outgoing_note);
    assert(r1.nullifier =~= r2.nullifier);
    assert(r1 =~= r2);
}

impl RawAuthorizationSignature {
    /// The raw signature decodes: key, scalar, and nonce point are canonical.
    pub open spec fn valid(self) -> bool {
        &&& crate::algebra::group_valid(self.authorization_key@)
        &&& crate::algebra::fp_valid(self.signature.0@)
        &&& crate::algebra::group_valid(self.signature.1@)
    }

    /// Decodes the raw signature into a typed [`AuthorizationSignature`].
    pub fn try_into(self) -> (r: Result<AuthorizationSignature, DecodeError>)
        ensures
            match r {
                Ok(s) => self.valid() && s.wf() && s.matches_raw(self),
                Err(e) => !self.valid() && e == DecodeError::NonCanonical,
            },
    {
        let authorization_key = crate::algebra::GroupElement::from_bytes(
            &self.authorization_key,
        )?;
        let scalar = FieldElement::from_bytes(&self.signature.0)?;
        let nonce_point = crate::algebra::GroupElement::from_bytes(&self.signature.1)?;
        Ok(AuthorizationSignature { authorization_key, scalar, nonce_point })
    }

    /// Splits a 96-byte blob into a raw authorization signature: key bytes,
    /// scalar bytes, then nonce point bytes. Any other length is rejected.
    pub fn from_bytes(bytes: &Vec<u8>) -> (r: Result<RawAuthorizationSignature, DecodeError>)
        ensures
            match r {
                Ok(raw) => {
                    &&& bytes@.len() == 96
                    &&& raw.authorization_key@ == bytes@.subrange(0, 32)
                    &&& raw.signature.0@ == bytes@.subrange(32, 64)
                    &&& raw.signature.1@ == bytes@.subrange(64, 96)
                },
                Err(e) => e == DecodeError::WrongLength && bytes@.len() != 96,
            },
    {
        if bytes.len() != 96 {
            return Err(DecodeError::WrongLength);
        }
        let authorization_key = copy_range32(bytes, 0);
        let scalar = copy_range32(bytes, 32);
        let nonce_point = copy_range32(bytes, 64);
        Ok(RawAuthorizationSignature {
            authorization_key,
            signature: (scalar, nonce_point),
        })
    }
}

impl AuthorizationSignature {
    /// Encodes the signature back into its raw wire form.
    pub fn to_raw(&self) -> (r: RawAuthorizationSignature)
        ensures
            self.matches_raw(r),
    {
        RawAuthorizationSignature {
            authorization_key: self.authorization_key.bytes,
            signature: (self.scalar.bytes, self.nonce_point.bytes),
        }
    }
}

/// Round-trip law: a typed authorization signature has exactly one raw encoding.
pub proof fn lemma_authorization_signature_round_trip(
    s: AuthorizationSignature,
    r1: RawAuthorizationSignature,
    r2: RawAuthorizationSignature,
)
    requires
        s.matches_raw(r1),
        s.matches_raw(r2),
    ensures
        r1 == r2,
{
    assert(r1 =~= r2);
}

impl RawCurrentPath {
    /// The raw path decodes: the sibling digest and every inner digest are
    /// canonical field elements.
    pub open spec fn valid(self) -> bool {
        &&& crate::algebra::fp_valid(self.sibling_digest@)
        &&& forall|i: int|
            0 <= i < self.inner_path@.len() ==> crate::algebra::fp_valid(
                (#[trigger] self.inner_path@[i])@,
            )
    }

    /// Decodes the raw path into a typed [`CurrentPath`].
    pub fn try_into(&self) -> (r: Result<CurrentPath, DecodeError>)
        ensures
            match r {
                Ok(p) => self.valid() && p.wf() && p.matches_raw(*self),
                Err(e) => !self.valid() && e == DecodeError::NonCanonical,
            },
    {
        let sibling_digest = FieldElement::from_bytes(&self.sibling_digest)?;
        let mut inner_path: Vec<FieldElement> = Vec::new();
        let n = self.inner_path.len();
        let mut i: usize = 0;
        while i < n
            invariant
                0 <= i <= n == self.inner_path@.len(),
                inner_path@.len() == i,
                forall|j: int|
                    0 <= j < i ==> crate::algebra::fp_valid((#[trigger] self.inner_path@[j])@),
                forall|j: int|
                    0 <= j < i ==> {
                        &&& (#[trigger] inner_path@[j]).wf()
                        &&& inner_path@[j].bytes == self.inner_path@[j]
                    },
            decreases n - i,
        {
            let fe = FieldElement::from_bytes(&self.inner_path[i])?;
            inner_path.push(fe);
            i += 1;
        }
        Ok(CurrentPath { sibling_digest, leaf_index: self.leaf_index, inner_path })
    }
}

impl CurrentPath {
    /// Encodes the path back into its raw wire form.
    pub fn to_raw(&self) -> (r: RawCurrentPath)
        ensures
            self.matches_raw(r),
    {
        let mut inner_path: Vec<[u8; 32]> = Vec::new();
        let n = self.inner_path.len();
        let mut i: usize = 0;
        while i < n
            invariant
                0 <= i <= n == self.inner_path@.len(),
                inner_path@.len() == i,
                forall|j: int| 0 <= j < i ==> inner_path@[j] == self.inner_path@[j].bytes,
            decreases n - i,
        {
            inner_path.push(self.inner_path[i].bytes);
            i += 1;
        }
        RawCurrentPath {
            sibling_digest: self.sibling_digest.bytes,
            leaf_index: self.leaf_index,
            inner_path,
        }
    }
}

/// Round-trip law: a typed path has exactly one raw wire content, so
/// decoding a valid raw path and re-encoding the result returns an equal
/// wire value, byte for byte.
pub proof fn lemma_current_path_round_trip(p: CurrentPath, r1: RawCurrentPath, r2: RawCurrentPath)
    requires
        p.matches_raw(r1),
        p.matches_raw(r2),
    ensures
        r1.sibling_digest == r2.sibling_digest,
        r1.leaf_index == r2.leaf_index,
        r1.inner_path@ == r2.inner_path@,
{
    assert(r1.inner_path@ =~= r2.inner_path@);
}

impl RawPullResponse {
    /// The raw response decodes: every receiver and sender entry decodes.
    pub open spec fn valid(self) -> bool {
        &&& forall|i: int|
            0 <= i < self.receivers@.len() ==> {
                &&& (#[trigger] self.receivers@[i]).0.valid()
                &&& self.receivers@[i].1.valid()
            }
        &&& forall|i: int|
            0 <= i < self.senders@.len() ==> {
                &&& crate::algebra::fp_valid((#[trigger] self.senders@[i]).0@)
                &&& self.senders@[i].1.valid()
            }
    }

    /// Decodes the raw response into a typed [`PullResponse`].
    ///
    /// Builds nothing and touches no wallet state on failure: either every
    /// entry decodes and the whole payload is returned, or the first
    /// non-canonical component fails the whole conversion.
    pub fn try_into(&self) -> (r: Result<PullResponse, DecodeError>)
        ensures
            match r {
                Ok(resp) => self.valid() && resp.wf() && resp.matches_raw(*self),
                Err(e) => !self.valid() && e == DecodeError::NonCanonical,
            },
    {
        let mut utxo_note_data: Vec<(Utxo, FullIncomingNote)> = Vec::new();
        let nr = self.receivers.len();
        let mut i: usize = 0;
        while i < nr
            invariant
                0 <= i <= nr == self.receivers@.len(),
                utxo_note_data@.len() == i,
                forall|j: int|
                    0 <= j < i ==> {
                        &&& (#[trigger] self.receivers@[j]).0.valid()
                        &&& self.receivers@[j].1.valid()
                    },
                forall|j: int|
                    0 <= j < i ==> {
                        &&& (#[trigger] utxo_note_data@[j]).0.wf()
                        &&& utxo_note_data@[j].1.wf()
                        &&& utxo_note_data@[j].0.matches_raw(self.receivers@[j].0)
                        &&& utxo_note_data@[j].1.matches_raw(self.receivers@[j].1)
                    },
            decreases nr - i,
        {
            let utxo = self.receivers[i].0.try_into()?;
            let note = self.receivers[i].1.try_into()?;
            utxo_note_data.push((utxo, note));
            i += 1;
        }
        let mut nullifier_data: Vec<Nullifier> = Vec::new();
        let ns = self.senders.len();
        let mut i: usize = 0;
        while i < ns
            invariant
                0 <= i <= ns == self.senders@.len(),
                nullifier_data@.len() == i,
                forall|j: int|
                    0 <= j < i ==> {
                        &&& crate::algebra::fp_valid((#[trigger] self.senders@[j]).0@)
                        &&& self.senders@[j].1.valid()
                    },
                forall|j: int|
                    0 <= j < i ==> {
                        &&& (#[trigger] nullifier_data@[j]).wf()
                        &&& nullifier_data@[j].commitment.bytes == self.senders@[j].0
                        &&& nullifier_data@[j].outgoing_note.matches_raw(self.senders@[j].1)
                    },
            decreases ns - i,
        {
            let commitment = FieldElement::from_bytes(&self.senders[i].0)?;
            let outgoing_note = self.senders[i].1.try_into()?;
            nullifier_data.push(Nullifier { commitment, outgoing_note });
            i += 1;
        }
        Ok(PullResponse {
            should_continue: self.should_continue,
            data: SyncData { utxo_note_data, nullifier_data },
        })
    }
}

impl PullResponse {
    /// Encodes the response back into its raw wire form.
    pub fn to_raw(&self) -> (r: RawPullResponse)
        ensures
            self.matches_raw(r),
    {
        let mut receivers: Vec<(RawUtxo, RawFullIncomingNote)> = Vec::new();
        let nr = self.data.utxo_note_data.len();
        let mut i: usize = 0;
        while i < nr
            invariant
                0 <= i <= nr == self.data.utxo_note_data@.len(),
                receivers@.len() == i,
                forall|j: int|
                    0 <= j < i ==> {
                        &&& (#[trigger] self.data.utxo_note_data@[j]).0.matches_raw(
                            receivers@[j].0,
                        )
                        &&& self.data.utxo_note_data@[j].1.matches_raw(receivers@[j].1)
                    },
            decreases nr - i,
        {
            let raw_utxo = self.data.utxo_note_data[i].0.to_raw();
            let raw_note = self.data.utxo_note_data[i].1.to_raw();
            receivers.push((raw_utxo, raw_note));
            i += 1;
        }
        let mut senders: Vec<([u8; 32], RawOutgoingNote)> = Vec::new();
        let ns = self.data.nullifier_data.len();
        let mut i: usize = 0;
        while i < ns
            invariant
                0 <= i <= ns == self.data.nullifier_data@.len(),
                senders@.len() == i,
                forall|j: int|
                    0 <= j < i ==> {
                        &&& senders@[j].0 == (
                        #[trigger] self.data.nullifier_data@[j]).commitment.bytes
                        &&& self.data.nullifier_data@[j].outgoing_note.matches_raw(senders@[j].1)
                    },
            decreases ns - i,
        {
            let commitment_bytes = self.data.nullifier_data[i].commitment.bytes;
            let raw_note = self.data.nullifier_data[i].outgoing_note.to_raw();
            senders.push((commitment_bytes, raw_note));
            i += 1;
        }
        RawPullResponse { should_continue: self.should_continue, receivers, senders }
    }
}

/// Round-trip law: a typed pull response has exactly one raw wire content,
/// so decoding a valid raw response and re-encoding the result returns an
/// equal wire value, entry for entry.
pub proof fn lemma_pull_response_round_trip(
    p: PullResponse,
    r1: RawPullResponse,
    r2: RawPullResponse,
)
    requires
        p.matches_raw(r1),
        p.matches_raw(r2),
    ensures
        r1.should_continue == r2.should_continue,
        r1.receivers@ == r2.receivers@,
        r1.senders@ == r2.senders@,
{
    assert forall|i: int| 0 <= i < r1.receivers@.len() implies r1.receivers@[i]
        == r2.receivers@[i] by {
        lemma_utxo_round_trip(p.data.utxo_note_data@[i].0, r1.receivers@[i].0, r2.receivers@[i].0);
        lemma_full_incoming_note_round_trip(
            p.data.utxo_note_data@[i].1,
            r1.receivers@[i].1,
            r2.receivers@[i].1,
        );
    }
    assert forall|i: int| 0 <= i < r1.senders@.len() implies r1.senders@[i] == r2.senders@[i] by {
        lemma_outgoing_note_round_trip(
            p.data.nullifier_data@[i].outgoing_note,
            r1.senders@[i].1,
            r2.senders@[i].1,
        );
    }
    assert(r1.receivers@ =~= r2.receivers@);
    assert(r1.senders@ =~= r2.senders@);
}

impl RawInitialPullResponse {
    /// The raw response decodes: every UTXO and membership path decodes.
    pub open spec fn valid(self) -> bool {
        &&& forall|i: int|
            0 <= i < self.utxo_data@.len() ==> (#[trigger] self.utxo_data@[i]).valid()
        &&& forall|i: int|
            0 <= i < self.membership_proof_data@.len() ==> (
            #[trigger] self.membership_proof_data@[i]).valid()
    }

    /// Decodes the raw response into a typed [`InitialPullResponse`].
    pub fn try_into(&self) -> (r: Result<InitialPullResponse, DecodeError>)
        ensures
            match r {
                Ok(resp) => self.valid() && resp.wf() && resp.matches_raw(*self),
                Err(e) => !self.valid() && e == DecodeError::NonCanonical,
            },
    {
        let mut utxo_data: Vec<Utxo> = Vec::new();
        let nu = self.utxo_data.len();
        let mut i: usize = 0;
        while i < nu
            invariant
                0 <= i <= nu == self.utxo_data@.len(),
                utxo_data@.len() == i,
                forall|j: int| 0 <= j < i ==> (#[trigger] self.utxo_data@[j]).valid(),
                forall|j: int|
                    0 <= j < i ==> {
                        &&& (#[trigger] utxo_data@[j]).wf()
                        &&& utxo_data@[j].matches_raw(self.utxo_data@[j])
                    },
            decreases nu - i,
        {
            let utxo = self.utxo_data[i].try_into()?;
            utxo_data.push(utxo);
            i += 1;
        }
        let mut membership_proof_data: Vec<CurrentPath> = Vec::new();
        let np = self.membership_proof_data.len();
        let mut i: usize = 0;
        while i < np
            invariant
                0 <= i <= np == self.membership_proof_data@.len(),
                membership_proof_data@.len() == i,
                forall|j: int| 0 <= j < i ==> (#[trigger] self.membership_proof_data@[j]).valid(),
                forall|j: int|
                    0 <= j < i ==> {
                        &&& (#[trigger] membership_proof_data@[j]).wf()
                        &&& membership_proof_data@[j].matches_raw(self.membership_proof_data@[j])
                    },
            decreases np - i,
        {
            let path = RawCurrentPath::try_into(&self.membership_proof_data[i])?;
            membership_proof_data.push(path);
            i += 1;
        }
        Ok(InitialPullResponse {
            should_continue: self.should_continue,
            data: InitialSyncData {
                utxo_data,
                membership_proof_data,
                nullifier_count: self.nullifier_count,
            },
        })
    }
}

impl RawReceiverPost {
    /// The raw post decodes: the UTXO and the note decode.
    pub open spec fn valid(self) -> bool {
        self.utxo.valid() && self.full_incoming_note.valid()
    }

    /// Decodes the raw post into a typed [`ReceiverPost`].
    pub fn try_into(self) -> (r: Result<ReceiverPost, DecodeError>)
        ensures
            match r {
                Ok(p) => self.valid() && p.wf() && p.matches_raw(self),
                Err(e) => !self.valid() && e == DecodeError::NonCanonical,
            },
    {
        let utxo = self.utxo.try_into()?;
        let note = self.full_incoming_note.try_into()?;
        Ok(ReceiverPost { utxo, note })
    }
}

impl ReceiverPost {
    /// Encodes the post back into its raw wire form.
    pub fn to_raw(&self) -> (r: RawReceiverPost)
        ensures
            self.matches_raw(r),
    {
        RawReceiverPost { utxo: self.utxo.to_raw(), full_incoming_note: self.note.to_raw() }
    }
}

/// Round-trip law: a typed receiver post has exactly one raw encoding.
pub proof fn lemma_receiver_post_round_trip(p: ReceiverPost, r1: RawReceiverPost, r2: RawReceiverPost)
    requires
        p.matches_raw(r1),
        p.matches_raw(r2),
    ensures
        r1 == r2,
{
    lemma_utxo_round_trip(p.utxo, r1.utxo, r2.utxo);
    lemma_full_incoming_note_round_trip(p.note, r1.full_incoming_note, r2.full_incoming_note);
    assert(r1 =~= r2);
}

impl RawSenderPost {
    /// The raw post decodes: the accumulator output and the nullifier decode.
    pub open spec fn valid(self) -> bool {
        crate::algebra::fp_valid(self.utxo_accumulator_output@) && self.nullifier.valid()
    }

    /// Decodes the raw post into a typed [`SenderPost`].
    pub fn try_into(self) -> (r: Result<SenderPost, DecodeError>)
        ensures
            match r {
                Ok(p) => self.valid() && p.wf() && p.matches_raw(self),
                Err(e) => !self.valid() && e == DecodeError::NonCanonical,
            },
    {
        let utxo_accumulator_output = FieldElement::from_bytes(&self.utxo_accumulator_output)?;
        let nullifier = self.nullifier.try_into()?;
        Ok(SenderPost { utxo_accumulator_output, nullifier })
    }
}

impl SenderPost {
    /// Encodes the post back into its raw wire form.
    pub fn to_raw(&self) -> (r: RawSenderPost)
        ensures
            self.matches_raw(r),
    {
        RawSenderPost {
            utxo_accumulator_output: self.utxo_accumulator_output.bytes,
            nullifier: self.nullifier.to_raw(),
        }
    }
}

/// Round-trip law: a typed sender post has exactly one raw encoding.
pub proof fn lemma_sender_post_round_trip(p: SenderPost, r1: RawSenderPost, r2: RawSenderPost)
    requires
        p.matches_raw(r1),
        p.matches_raw(r2),
    ensures
        r1 == r2,
{
    lemma_nullifier_round_trip(p.nullifier, r1.nullifier, r2.nullifier);
    assert(r1 =~= r2);
}

/// Round-trip law: a typed initial pull response has exactly one raw wire
/// content, entry for entry.
pub proof fn lemma_initial_pull_response_round_trip(
    p: InitialPullResponse,
    r1: RawInitialPullResponse,
    r2: RawInitialPullResponse,
)
    requires
        p.matches_raw(r1),
        p.matches_raw(r2),
    ensures
        r1.should_continue == r2.should_continue,
        r1.nullifier_count == r2.nullifier_count,
        r1.utxo_data@ == r2.utxo_data@,
        forall|i: int|
            0 <= i < r1.membership_proof_data@.len() ==> {
                &&& (#[trigger] r1.membership_proof_data@[i]).sibling_digest
                    == r2.membership_proof_data@[i].sibling_digest
                &&& r1.membership_proof_data@[i].leaf_index
                    == r2.membership_proof_data@[i].leaf_index
                &&& r1.membership_proof_data@[i].inner_path@
                    == r2.membership_proof_data@[i].inner_path@
            },
{
    assert forall|i: int| 0 <= i < r1.utxo_data@.len() implies r1.utxo_data@[i]
        == r2.utxo_data@[i] by {
        lemma_utxo_round_trip(p.data.utxo_data@[i], r1.utxo_data@[i], r2.utxo_data@[i]);
    }
    assert(r1.utxo_data@ =~= r2.utxo_data@);
    assert forall|i: int| 0 <= i < r1.membership_proof_data@.len() implies {
        &&& (#[trigger] r1.membership_proof_data@[i]).sibling_digest
            == r2.membership_proof_data@[i].sibling_digest
        &&& r1.membership_proof_data@[i].leaf_index == r2.membership_proof_data@[i].leaf_index
        &&& r1.membership_proof_data@[i].inner_path@ == r2.membership_proof_data@[i].inner_path@
    } by {
        lemma_current_path_round_trip(
            p.data.membership_proof_data@[i],
            r1.membership_proof_data@[i],
            r2.membership_proof_data@[i],
        );
    }
}

/// Decodes public source or sink values from their wire bytes.
pub fn decode_asset_values(raw: &Vec<RawAssetValue>) -> (r: Vec<u128>)
    ensures
        r@.len() == raw@.len(),
        forall|i: int|
            0 <= i < raw@.len() ==> r@[i] == vstd::bytes::spec_u128_from_le_bytes(
                (#[trigger] raw@[i])@,
            ),
{
    let mut r: Vec<u128> = Vec::new();
    let n = raw.len();
    let mut i: usize = 0;
    while i < n
        invariant
            0 <= i <= n == raw@.len(),
            r@.len() == i,
            forall|j: int|
                0 <= j < i ==> r@[j] == vstd::bytes::spec_u128_from_le_bytes(
                    (#[trigger] raw@[j])@,
                ),
        decreases n - i,
    {
        let v = u128_from_le_bytes(raw[i].as_slice());
        r.push(v);
        i += 1;
    }
    r
}

/// Encodes public source or sink values into their wire bytes.
pub fn encode_asset_values(values: &Vec<u128>) -> (r: Vec<RawAssetValue>)
    ensures
        r@.len() == values@.len(),
        forall|i: int|
            0 <= i < values@.len() ==> (#[trigger] r@[i])@ == vstd::bytes::spec_u128_to_le_bytes(
                values@[i],
            ),
{
    let mut r: Vec<RawAssetValue> = Vec::new();
    let n = values.len();
    let mut i: usize = 0;
    while i < n
        invariant
            0 <= i <= n == values@.len(),
            r@.len() == i,
            forall|j: int|
                0 <= j < i ==> (#[trigger] r@[j])@ == vstd::bytes::spec_u128_to_le_bytes(
                    values@[j],
                ),
        decreases n - i,
    {
        let bytes = u128_to_le_bytes(values[i]);
        r.push(copy_to_array16(&bytes));
        i += 1;
    }
    r
}

/// Round-trip law: decoding wire asset values and re-encoding them returns
/// the original bytes, value for value.
pub proof fn lemma_asset_values_round_trip(raw: Seq<RawAssetValue>, values: Seq<u128>, raw2: Seq<
    RawAssetValue,
>)
    requires
        values.len() == raw.len(),
        forall|i: int|
            0 <= i < raw.len() ==> values[i] == vstd::bytes::spec_u128_from_le_bytes(
                (#[trigger] raw[i])@,
            ),
        raw2.len() == values.len(),
        forall|i: int|
            0 <= i < values.len() ==> (#[trigger] raw2[i])@ == vstd::bytes::spec_u128_to_le_bytes(
                values[i],
            ),
    ensures
        raw2 == raw,
{
    lemma_auto_spec_u128_to_from_le_bytes();
    assert forall|i: int| 0 <= i < raw.len() implies raw2[i] == raw[i] by {
        assert(raw2[i]@ == raw[i]@);
        assert(raw2[i] =~= raw[i]);
    }
    assert(raw2 =~= raw);
}

/// Copies 32 bytes starting at `offset` into a fixed array.
fn copy_range32(bytes: &Vec<u8>, offset: usize) -> (r: [u8; 32])
    requires
        offset + 32 <= bytes@.len(),
    ensures
        r@ == bytes@.subrange(offset as int, offset as int + 32),
{
    let n = bytes.len();
    let mut arr: [u8; 32] = [0; 32];
    let mut i: usize = 0;
    while i < 32
        invariant
            0 <= i <= 32,
            offset + 32 <= n == bytes@.len(),
            forall|j: int| 0 <= j < i ==> arr@[j] == bytes@[offset + j],
        decreases 32 - i,
    {
        arr[i] = bytes[offset + i];
        i += 1;
    }
    proof {
        assert(arr@ =~= bytes@.subrange(offset as int, offset as int + 32));
    }
    arr
}

} // verus!
