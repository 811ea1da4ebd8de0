//! Asset identifier conversions for the host boundary.
//!
//! An asset identifier is a field element; hosts also name assets by a
//! 128-bit integer or by a short string. Both alternate forms live in the
//! low bytes of the 32-byte identifier, with the rest zero.

use vstd::bytes::{spec_u128_from_le_bytes, spec_u128_to_le_bytes, u128_from_le_bytes, u128_to_le_bytes};
use vstd::prelude::*;
use vstd::slice::{slice_subrange, slice_to_vec};
use vstd::utf8::{decode_utf8, encode_utf8, valid_utf8};

verus! {

/// Relies on `String::from_utf8`: it succeeds exactly on valid UTF-8 input
/// and decodes those bytes; the outcome depends on the bytes alone.
#[verifier::external_body]
fn string_from_utf8(bytes: Vec<u8>) -> (r: Option<String>)
    ensures
        r is Some <==> valid_utf8(bytes@),
        r matches Some(s) ==> s@ == decode_utf8(bytes@),
{
    String::from_utf8(bytes).ok()
}

/// Relies on `String::into_bytes`: the string's UTF-8 encoding comes back.
#[verifier::external_body]
fn string_into_bytes(s: String) -> (r: Vec<u8>)
    ensures
        r@ == encode_utf8(s@),
{
    s.into_bytes()
}

/// Reads an asset identifier back as a string: the identifier must carry a
/// 128-bit value of zero in its high half and valid UTF-8 in all 32 bytes.
pub fn id_string_from_field(id: [u8; 32]) -> (r: Option<String>)
    ensures
        match r {
            Some(s) => {
                &&& spec_u128_from_le_bytes(id@.subrange(16, 32)) == 0
                &&& valid_utf8(id@)
                &&& s@ == decode_utf8(id@)
            },
            None => spec_u128_from_le_bytes(id@.subrange(16, 32)) != 0 || !valid_utf8(id@),
        },
{
    let high = slice_subrange(id.as_slice(), 16, 32);
    if u128_from_le_bytes(high) == 0 {
        string_from_utf8(slice_to_vec(id.as_slice()))
    } else {
        None
    }
}

/// Turns a string-named asset identifier into field element bytes. The
/// string's UTF-8 encoding must be exactly 32 bytes.
pub fn field_from_id_string(id: String) -> (r: [u8; 32])
    requires
        encode_utf8(id@).len() == 32,
    ensures
        r@ == encode_utf8(id@),
{
    let bytes = string_into_bytes(id);
    match crate::algebra::copy_to_array32(&bytes) {
        Ok(arr) => arr,
        Err(_) => {
            proof {
                assert(false);
            }
            [0; 32]
        },
    }
}

/// Turns an integer-named asset identifier into field element bytes: the
/// value in little-endian order, padded with zero bytes.
pub fn field_from_id_u128(id: u128) -> (r: [u8; 32])
    ensures
        r@.subrange(0, 16) == spec_u128_to_le_bytes(id),
        forall|j: int| 16 <= j < 32 ==> r@[j] == 0,
{
    let low = u128_to_le_bytes(id);
    let mut arr: [u8; 32] = [0; 32];
    let mut i: usize = 0;
    while i < 16
        invariant
            0 <= i <= 16,
            low@ == spec_u128_to_le_bytes(id),
            low@.len() == 16,
            forall|j: int| 0 <= j < i ==> arr@[j] == low@[j],
            forall|j: int| i <= j < 32 ==> arr@[j] == 0,
        decreases 16 - i,
    {
        arr[i] = low[i];
        i += 1;
    }
    proof {
        assert(arr@.subrange(0, 16) =~= low@);
    }
    arr
}

} // verus!
