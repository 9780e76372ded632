//! Decoding of bytes that claim to be UTF-8.

use crate::error::HostError;
use vstd::prelude::*;
use vstd::utf8::{decode_utf8, valid_utf8};

verus! {

/// `String::from_utf8` of the standard library. Trusted: it hands back a
/// string exactly when the bytes are well-formed UTF-8, and that string is
/// then made of the characters they encode.
#[verifier::external_body]
fn string_from_utf8(bytes: Vec<u8>) -> (decoded: Option<String>)
    ensures
        decoded.is_some() == valid_utf8(bytes@),
        decoded matches Some(s) ==> s@ == decode_utf8(bytes@),
{
    std::string::String::from_utf8(bytes).ok()
}

/// Decodes the bytes of a string that crossed the boundary.
pub fn decode_text(bytes: Vec<u8>) -> (decoded: Result<String, HostError>)
    ensures
        match decoded {
            Ok(s) => valid_utf8(bytes@) && s@ == decode_utf8(bytes@),
            Err(e) => !valid_utf8(bytes@) && e@ == crate::error::Fault::Decode,
        },
{
    match string_from_utf8(bytes) {
        Some(s) => Ok(s),
        None => Err(HostError::Decode),
    }
}

} // verus!
