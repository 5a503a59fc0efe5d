//! Decoding binary SCIP indexes, with their own read and decode errors.
use vstd::prelude::*;

use crate::scip_index::{parse_binary_index, scip_binary_index, scip_binary_parses};

verus! {

/// A failure to read or decode a binary SCIP file. The read failure holds the path's display
/// text and the I/O error's text; the decode failure holds the decoder's error.
#[derive(Debug)]
pub enum ScipError {
    Read { path: String, details: String },
    Decode { source: protobuf::Error },
}

impl ScipError {
    /// The file at `path` could not be read.
    pub fn read(path: String, details: String) -> (r: Self)
        ensures
            r == (ScipError::Read { path, details }),
    {
        ScipError::Read { path, details }
    }

    /// The bytes are not a binary SCIP index.
    pub fn decode(source: protobuf::Error) -> (r: Self)
        ensures
            r == (ScipError::Decode { source }),
    {
        ScipError::Decode { source }
    }

    /// The error's message.
    pub fn message(&self) -> (r: &'static str)
        ensures
            self is Read ==> r == "failed to read SCIP file",
            self is Decode ==> r == "failed to decode SCIP file",
    {
        match self {
            ScipError::Read { .. } => "failed to read SCIP file",
            ScipError::Decode { .. } => "failed to decode SCIP file",
        }
    }
}

/// Decodes a binary SCIP index: the index the bytes encode; bytes that do not decode give a decode error.
pub fn decode_scip_from_bytes(bytes: &[u8]) -> (r: Result<scip::types::Index, ScipError>)
    ensures
        r is Ok <==> scip_binary_parses(bytes@),
        r matches Ok(i) ==> i == scip_binary_index(bytes@),
        r matches Err(e) ==> e is Decode,
{
    match parse_binary_index(bytes) {
        Ok(index) => Ok(index),
        Err(source) => Err(ScipError::decode(source)),
    }
}

} // verus!
