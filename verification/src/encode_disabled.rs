//! Transcoding for a build that leaves the catalog of charsets out.
//!
//! Both functions fail, whatever they are given, and say why: a body in
//! UTF-8 needs neither, and a deployment that has no other need not carry
//! the catalog.

use crate::error::TranscodeError;
use vstd::prelude::*;

verus! {

/// Fails with `Disabled`.
pub fn encode_data(raw_data: &str, encode: &str) -> (r: Result<Vec<u8>, TranscodeError>)
    ensures
        r matches Err(TranscodeError::Disabled),
{
    Err(TranscodeError::Disabled)
}

/// Fails with `Disabled`.
pub fn decode_data(raw_data: &[u8], encode: &str) -> (r: Result<String, TranscodeError>)
    ensures
        r matches Err(TranscodeError::Disabled),
{
    Err(TranscodeError::Disabled)
}

} // verus!
