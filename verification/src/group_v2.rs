//! Migration step that records, for each GroupV1 group, the id its GroupV2
//! successor is expected to have.

use vstd::prelude::*;
use crate::codec::{decode_hex, encode_hex, hex_decoded, hex_encoded};

verus! {

/// Request to find GroupV1 groups without an expected GroupV2 id and to
/// record that id for them.
#[derive(Clone, Copy, PartialEq, Eq, Debug)]
pub struct ComputeGroupV2ExpectedIds;

/// Length in bytes of a GroupV1 group id.
pub const GROUP_V1_ID_LEN: usize = 16;

/// Whether a stored group id is a valid hex text.
pub fn is_valid_hex(text: &str) -> (r: bool)
    ensures
        r == (hex_decoded(text@) is Some),
{
    decode_hex(text).is_some()
}

/// The GroupV1 id written in the stored hex text, or `None` when it does
/// not have the 16 bytes of a GroupV1 id (such a row is skipped).
pub fn pending_v1_id(hex_id: &str) -> (r: Option<Vec<u8>>)
    requires
        hex_decoded(hex_id@) is Some,
    ensures
        match r {
            Some(id) => hex_decoded(hex_id@) == Some(id@) && id@.len() == GROUP_V1_ID_LEN,
            None => hex_decoded(hex_id@)->0.len() != GROUP_V1_ID_LEN,
        },
{
    let bytes = decode_hex(hex_id).unwrap();
    if bytes.len() != GROUP_V1_ID_LEN {
        return None;
    }
    Some(bytes)
}

/// The text under which the expected GroupV2 id is stored: its lower-case
/// hex form.
pub fn expected_v2_id_text(group_identifier: &[u8]) -> (r: String)
    ensures
        r@ == hex_encoded(group_identifier@),
{
    encode_hex(group_identifier)
}

} // verus!
