//! Asset identifier conversions and parameter blob containers.

use manta_wallet::ids::{field_from_id_string, field_from_id_u128, id_string_from_field};
use manta_wallet::params::{RawFullParameters, RawMultiProvingContext};

#[test]
fn integer_identifier_is_little_endian_with_zero_padding() {
    let id = field_from_id_u128(0x0102030405060708090a0b0c0d0e0f10u128);
    assert_eq!(&id[0..16], &0x0102030405060708090a0b0c0d0e0f10u128.to_le_bytes());
    assert_eq!(&id[16..32], &[0u8; 16]);
}

#[test]
fn string_identifier_round_trips_through_field_bytes() {
    // A string-named asset identifier is at most 16 bytes of text, padded
    // with NUL bytes up to the 32-byte field encoding: the high half must
    // read as the 128-bit value zero.
    let mut name = String::from("asset-name");
    while name.len() < 32 {
        name.push('\0');
    }
    let id = field_from_id_string(name.clone());
    assert_eq!(&id[..], name.as_bytes());
    let back = id_string_from_field(id).unwrap();
    assert_eq!(back, name);
}

#[test]
fn identifier_with_high_bytes_set_names_no_string() {
    let id = [0xABu8; 32];
    assert_eq!(id_string_from_field(id), None);
}

#[test]
fn integer_identifier_of_a_small_value_is_not_a_string() {
    // The low bytes are not valid UTF-8 text here only when they hold
    // control bytes; a zero identifier is the empty-looking NUL string,
    // which UTF-8 accepts, so the conversion answers with it.
    let id = field_from_id_u128(0);
    let s = id_string_from_field(id).unwrap();
    assert_eq!(s.len(), 32);
    assert!(s.chars().all(|c| c == '\0'));
}

#[test]
fn parameter_container_keeps_the_blobs() {
    let params = RawFullParameters::new(
        &[],
        &[1u8; 32],
        &[2u8; 8712],
        &[],
        &[3u8; 8608],
        &[],
        &[],
        &[4u8; 11072],
        &[5u8; 6368],
        &[6u8; 13472],
        &[7u8; 6368],
    );
    assert_eq!(params.group_generator, vec![1u8; 32]);
    assert_eq!(params.utxo_accumulator_model.len(), 6368);
}

#[test]
fn proving_context_container_keeps_the_blobs() {
    let ctx = RawMultiProvingContext::new_unchecked(&[1, 2, 3], &[4, 5], &[6]);
    assert_eq!(ctx.to_private, vec![1, 2, 3]);
    assert_eq!(ctx.private_transfer, vec![4, 5]);
    assert_eq!(ctx.to_public, vec![6]);
}

#[test]
fn identifier_with_invalid_text_names_no_string() {
    // The high half is zero, but the low bytes are not valid UTF-8.
    let mut id = [0u8; 32];
    id[0] = 0xFF;
    assert_eq!(id_string_from_field(id), None);
}
