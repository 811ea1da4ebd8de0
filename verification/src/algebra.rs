//! Field and group elements as canonical 32-byte encodings.
//!
//! The protocol pins every algebraic value to exactly 32 bytes. The wallet
//! core never computes with these values; it only needs to know whether a
//! blob is a canonical encoding, and to hand the bytes through unchanged.
//! The canonicity judgment itself belongs to the curve arithmetic crates
//! and is reached through two trusted wrappers below.

use vstd::prelude::*;

use crate::errors::DecodeError;

verus! {

/// Whether 32 bytes are the canonical little-endian encoding of a scalar
/// of the proof system's scalar field (an integer below the field modulus).
pub uninterp spec fn fp_valid(bytes: Seq<u8>) -> bool;

/// Whether 32 bytes are the canonical compressed encoding of a point of
/// the embedded curve's prime-order subgroup.
pub uninterp spec fn group_valid(bytes: Seq<u8>) -> bool;

/// Relies on `ark_bls12_381::Fr`'s `CanonicalDeserialize`: 32 bytes decode
/// exactly when they are the canonical little-endian representation of an
/// integer below the field modulus; the outcome depends on the bytes alone.
#[verifier::external_body]
pub(crate) fn fp_check(bytes: &[u8; 32]) -> (r: bool)
    ensures
        r == fp_valid(bytes@),
{
    <ark_bls12_381::Fr as ark_serialize::CanonicalDeserialize>::deserialize_compressed(
        bytes.as_slice(),
    )
    .is_ok()
}

/// Relies on `ark_ed_on_bls12_381::EdwardsAffine`'s `CanonicalDeserialize`:
/// 32 bytes decode exactly when they are a canonical compressed encoding of
/// a curve point in the prime-order subgroup (the deserializer solves for
/// the missing coordinate and checks curve and subgroup membership); the
/// outcome depends on the bytes alone.
#[verifier::external_body]
pub(crate) fn group_check(bytes: &[u8; 32]) -> (r: bool)
    ensures
        r == group_valid(bytes@),
{
    <ark_ed_on_bls12_381::EdwardsAffine as ark_serialize::CanonicalDeserialize>::deserialize_compressed(
        bytes.as_slice(),
    )
    .is_ok()
}

/// A scalar field element, stored as its canonical encoding.
#[derive(Clone, Copy, Debug, PartialEq, Eq, Hash)]
pub struct FieldElement {
    /// The canonical 32-byte little-endian encoding of the element.
    pub bytes: [u8; 32],
}

impl FieldElement {
    /// A field element is well-formed when its bytes are canonical.
    pub open spec fn wf(self) -> bool {
        fp_valid(self.bytes@)
    }

    /// Decodes a field element from a fixed 32-byte blob.
    pub fn from_bytes(bytes: &[u8; 32]) -> (r: Result<FieldElement, DecodeError>)
        ensures
            match r {
                Ok(fe) => fp_valid(bytes@) && fe.bytes == *bytes,
                Err(e) => e == DecodeError::NonCanonical && !fp_valid(bytes@),
            },
    {
        if fp_check(bytes) {
            Ok(FieldElement { bytes: *bytes })
        } else {
            Err(DecodeError::NonCanonical)
        }
    }

    /// Encoding is exact and lossless: the canonical bytes come back.
    pub fn encode(&self) -> (r: [u8; 32])
        ensures
            r == self.bytes,
    {
        self.bytes
    }
}

/// A point of the embedded curve, stored as its canonical compressed encoding.
#[derive(Clone, Copy, Debug, PartialEq, Eq, Hash)]
pub struct GroupElement {
    /// The canonical 32-byte compressed encoding of the point.
    pub bytes: [u8; 32],
}

impl GroupElement {
    /// A group element is well-formed when its bytes are canonical.
    pub open spec fn wf(self) -> bool {
        group_valid(self.bytes@)
    }

    /// Decodes a group element from a fixed 32-byte blob.
    pub fn from_bytes(bytes: &[u8; 32]) -> (r: Result<GroupElement, DecodeError>)
        ensures
            match r {
                Ok(ge) => group_valid(bytes@) && ge.bytes == *bytes,
                Err(e) => e == DecodeError::NonCanonical && !group_valid(bytes@),
            },
    {
        if group_check(bytes) {
            Ok(GroupElement { bytes: *bytes })
        } else {
            Err(DecodeError::NonCanonical)
        }
    }

    /// Encoding is exact and lossless: the canonical bytes come back.
    pub fn encode(&self) -> (r: [u8; 32])
        ensures
            r == self.bytes,
    {
        self.bytes
    }
}

/// Decodes a field element from a variable-length blob, as the wire layer
/// hands it over. The length must be exactly 32.
pub fn fp_decode(bytes: &Vec<u8>) -> (r: Result<FieldElement, DecodeError>)
    ensures
        match r {
            Ok(fe) => bytes@.len() == 32 && fp_valid(bytes@) && fe.bytes@ == bytes@,
            Err(DecodeError::WrongLength) => bytes@.len() != 32,
            Err(DecodeError::NonCanonical) => bytes@.len() == 32 && !fp_valid(bytes@),
        },
{
    let arr = match copy_to_array32(bytes) {
        Ok(arr) => arr,
        Err(e) => {
            return Err(e);
        },
    };
    match FieldElement::from_bytes(&arr) {
        Ok(fe) => Ok(fe),
        Err(e) => Err(e),
    }
}

/// Decodes a group element from a variable-length blob, as the wire layer
/// hands it over. The length must be exactly 32.
pub fn group_decode(bytes: &Vec<u8>) -> (r: Result<GroupElement, DecodeError>)
    ensures
        match r {
            Ok(ge) => bytes@.len() == 32 && group_valid(bytes@) && ge.bytes@ == bytes@,
            Err(DecodeError::WrongLength) => bytes@.len() != 32,
            Err(DecodeError::NonCanonical) => bytes@.len() == 32 && !group_valid(bytes@),
        },
{
    let arr = match copy_to_array32(bytes) {
        Ok(arr) => arr,
        Err(e) => {
            return Err(e);
        },
    };
    match GroupElement::from_bytes(&arr) {
        Ok(ge) => Ok(ge),
        Err(e) => Err(e),
    }
}

/// Compares two 32-byte blobs for equality.
pub fn bytes32_eq(a: &[u8; 32], b: &[u8; 32]) -> (r: bool)
    ensures
        r == (a@ == b@),
{
    let mut i: usize = 0;
    while i < 32
        invariant
            0 <= i <= 32,
            forall|j: int| 0 <= j < i ==> a@[j] == b@[j],
        decreases 32 - i,
    {
        if a[i] != b[i] {
            return false;
        }
        i += 1;
    }
    proof {
        assert(a@ =~= b@);
    }
    true
}

/// Copies a 32-byte vector into a fixed array, rejecting other lengths.
pub(crate) fn copy_to_array32(bytes: &Vec<u8>) -> (r: Result<[u8; 32], DecodeError>)
    ensures
        match r {
            Ok(arr) => bytes@.len() == 32 && arr@ == bytes@,
            Err(e) => e == DecodeError::WrongLength && bytes@.len() != 32,
        },
{
    if bytes.len() != 32 {
        return Err(DecodeError::WrongLength);
    }
    let mut arr: [u8; 32] = [0; 32];
    let mut i: usize = 0;
    while i < 32
        invariant
            0 <= i <= 32,
            bytes@.len() == 32,
            forall|j: int| 0 <= j < i ==> arr@[j] == bytes@[j],
        decreases 32 - i,
    {
        arr[i] = bytes[i];
        i += 1;
    }
    proof {
        assert(arr@ =~= bytes@);
    }
    Ok(arr)
}

} // verus!
