//! Decode/encode round trips and decode failures on the wire codec.

use manta_wallet::algebra::{fp_decode, group_decode, FieldElement, GroupElement};
use manta_wallet::codec::{decode_asset_values, encode_asset_values};
use manta_wallet::errors::DecodeError;
use manta_wallet::raw::{
    RawAsset, RawAuthorizationSignature, RawCurrentPath, RawFullIncomingNote, RawIncomingNote,
    RawLightIncomingNote, RawNulllifier, RawNullifierCommitment, RawOutgoingNote, RawPullResponse,
    RawUtxo,
};

/// 32 bytes that canonically encode the scalar `k`.
fn fp_bytes(k: u8) -> [u8; 32] {
    let mut b = [0u8; 32];
    b[0] = k;
    b
}

/// 32 bytes that canonically encode the neutral curve point.
fn group_bytes_identity() -> [u8; 32] {
    // The neutral element has coordinates (0, 1): its compressed form is
    // the little-endian 1 with a clear sign flag.
    let mut b = [0u8; 32];
    b[0] = 1;
    b
}

/// 32 bytes above the scalar field modulus: canonical for nothing.
fn bad_bytes() -> [u8; 32] {
    [0xFF; 32]
}

fn raw_asset(k: u8, value: u128) -> RawAsset {
    RawAsset { id: fp_bytes(k), value: value.to_le_bytes() }
}

fn raw_utxo(k: u8) -> RawUtxo {
    RawUtxo {
        is_transparent: false,
        public_asset: raw_asset(k, 7),
        commitment: fp_bytes(k.wrapping_add(1)),
    }
}

fn raw_incoming_note() -> RawIncomingNote {
    RawIncomingNote {
        ephemeral_public_key: group_bytes_identity(),
        tag: fp_bytes(3),
        ciphertext: [fp_bytes(4), fp_bytes(5), fp_bytes(6)],
    }
}

fn raw_light_note() -> RawLightIncomingNote {
    RawLightIncomingNote {
        ephemeral_public_key: group_bytes_identity(),
        ciphertext: [[9u8; 32], [10u8; 32], [11u8; 32]],
    }
}

fn raw_full_note() -> RawFullIncomingNote {
    RawFullIncomingNote {
        address_partition: 42,
        incoming_note: raw_incoming_note(),
        light_incoming_note: raw_light_note(),
    }
}

fn raw_outgoing_note() -> RawOutgoingNote {
    RawOutgoingNote {
        ephemeral_public_key: group_bytes_identity(),
        ciphertext: [[12u8; 32], [13u8; 32]],
    }
}

#[test]
fn field_element_round_trip() {
    let bytes = fp_bytes(1);
    let fe = FieldElement::from_bytes(&bytes).unwrap();
    assert_eq!(fe.encode(), bytes);
    let zero = FieldElement::from_bytes(&[0u8; 32]).unwrap();
    assert_eq!(zero.encode(), [0u8; 32]);
}

#[test]
fn field_element_rejects_non_canonical() {
    assert_eq!(
        FieldElement::from_bytes(&bad_bytes()),
        Err(DecodeError::NonCanonical)
    );
}

#[test]
fn fp_decode_checks_length_first() {
    assert_eq!(fp_decode(&vec![0u8; 31]), Err(DecodeError::WrongLength));
    assert_eq!(fp_decode(&vec![0u8; 33]), Err(DecodeError::WrongLength));
    let ok = fp_decode(&fp_bytes(5).to_vec()).unwrap();
    assert_eq!(ok.bytes, fp_bytes(5));
}

#[test]
fn group_element_round_trip() {
    let bytes = group_bytes_identity();
    let ge = GroupElement::from_bytes(&bytes).unwrap();
    assert_eq!(ge.encode(), bytes);
}

#[test]
fn group_element_rejects_non_canonical() {
    assert_eq!(
        GroupElement::from_bytes(&bad_bytes()),
        Err(DecodeError::NonCanonical)
    );
    assert_eq!(group_decode(&vec![1u8; 16]), Err(DecodeError::WrongLength));
}

#[test]
fn asset_round_trip() {
    let raw = raw_asset(2, 123456789012345678901234567890u128);
    let asset = raw.clone().try_into().unwrap();
    assert_eq!(asset.value, 123456789012345678901234567890u128);
    assert_eq!(asset.to_raw(), raw);
}

#[test]
fn asset_rejects_bad_identifier() {
    let raw = RawAsset { id: bad_bytes(), value: [0u8; 16] };
    assert_eq!(raw.try_into(), Err(DecodeError::NonCanonical));
}

#[test]
fn utxo_round_trip() {
    let raw = raw_utxo(1);
    let utxo = raw.clone().try_into().unwrap();
    assert!(!utxo.is_transparent);
    assert_eq!(utxo.to_raw(), raw);
}

#[test]
fn utxo_rejects_bad_commitment() {
    let mut raw = raw_utxo(1);
    raw.commitment = bad_bytes();
    assert_eq!(raw.try_into(), Err(DecodeError::NonCanonical));
}

#[test]
fn incoming_note_round_trip() {
    let raw = raw_incoming_note();
    let note = raw.clone().try_into().unwrap();
    assert_eq!(note.to_raw(), raw);
}

#[test]
fn incoming_note_rejects_bad_ciphertext_block() {
    let mut raw = raw_incoming_note();
    raw.ciphertext[1] = bad_bytes();
    assert_eq!(raw.try_into(), Err(DecodeError::NonCanonical));
}

#[test]
fn light_incoming_note_round_trip() {
    let raw = raw_light_note();
    let note = raw.clone().try_into().unwrap();
    assert_eq!(note.to_raw(), raw);
}

#[test]
fn full_incoming_note_round_trip() {
    let raw = raw_full_note();
    let note = raw.clone().try_into().unwrap();
    assert_eq!(note.address_partition, 42);
    assert_eq!(note.to_raw(), raw);
}

#[test]
fn outgoing_note_round_trip() {
    let raw = raw_outgoing_note();
    let note = raw.clone().try_into().unwrap();
    assert_eq!(note.to_raw(), raw);
}

#[test]
fn outgoing_note_rejects_bad_key() {
    let mut raw = raw_outgoing_note();
    raw.ephemeral_public_key = bad_bytes();
    assert_eq!(raw.try_into(), Err(DecodeError::NonCanonical));
}

#[test]
fn nullifier_round_trip() {
    let raw = RawNulllifier {
        nullifier: RawNullifierCommitment { commitment: fp_bytes(8) },
        outgoing_note: raw_outgoing_note(),
    };
    let n = raw.clone().try_into().unwrap();
    assert_eq!(n.to_raw(), raw);
}

#[test]
fn current_path_round_trip() {
    let raw = RawCurrentPath {
        sibling_digest: fp_bytes(1),
        leaf_index: 17,
        inner_path: vec![fp_bytes(2), fp_bytes(3), fp_bytes(4)],
    };
    let path = RawCurrentPath::try_into(&raw).unwrap();
    assert_eq!(path.leaf_index, 17);
    assert_eq!(path.to_raw(), raw);
}

#[test]
fn current_path_rejects_bad_inner_digest() {
    let raw = RawCurrentPath {
        sibling_digest: fp_bytes(1),
        leaf_index: 0,
        inner_path: vec![fp_bytes(2), bad_bytes()],
    };
    assert_eq!(RawCurrentPath::try_into(&raw), Err(DecodeError::NonCanonical));
}

#[test]
fn pull_response_round_trip() {
    let raw = RawPullResponse {
        should_continue: true,
        receivers: vec![(raw_utxo(1), raw_full_note()), (raw_utxo(3), raw_full_note())],
        senders: vec![(fp_bytes(9), raw_outgoing_note())],
    };
    let resp = RawPullResponse::try_into(&raw).unwrap();
    assert!(resp.should_continue);
    assert_eq!(resp.data.utxo_note_data.len(), 2);
    assert_eq!(resp.data.nullifier_data.len(), 1);
    assert_eq!(resp.to_raw(), raw);
}

#[test]
fn pull_response_fails_whole_on_one_bad_entry() {
    let raw = RawPullResponse {
        should_continue: false,
        receivers: vec![(raw_utxo(1), raw_full_note())],
        senders: vec![(bad_bytes(), raw_outgoing_note())],
    };
    assert_eq!(RawPullResponse::try_into(&raw), Err(DecodeError::NonCanonical));
    // The failed conversion had no effect: the same input decodes again
    // the same way, and its entries are untouched.
    assert_eq!(raw.receivers.len(), 1);
    assert_eq!(RawPullResponse::try_into(&raw), Err(DecodeError::NonCanonical));
}

#[test]
fn authorization_signature_round_trip() {
    let mut blob = Vec::new();
    blob.extend_from_slice(&group_bytes_identity());
    blob.extend_from_slice(&fp_bytes(5));
    blob.extend_from_slice(&group_bytes_identity());
    let raw = RawAuthorizationSignature::from_bytes(&blob).unwrap();
    assert_eq!(raw.authorization_key, group_bytes_identity());
    assert_eq!(raw.signature.0, fp_bytes(5));
    let sig = raw.try_into().unwrap();
    assert_eq!(sig.to_raw(), raw);
}

#[test]
fn authorization_signature_rejects_wrong_length() {
    assert_eq!(
        RawAuthorizationSignature::from_bytes(&vec![0u8; 95]),
        Err(DecodeError::WrongLength)
    );
}

#[test]
fn asset_values_round_trip() {
    let values = vec![0u128, 1, u128::MAX, 1_000_000_000_000_000_000_000u128];
    let raw = encode_asset_values(&values);
    assert_eq!(raw[1], {
        let mut b = [0u8; 16];
        b[0] = 1;
        b
    });
    assert_eq!(decode_asset_values(&raw), values);
}
