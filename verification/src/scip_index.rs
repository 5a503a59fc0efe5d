//! Parsing SCIP index files, binary protobuf or protobuf JSON, into the `scip` crate's
//! index type.
use vstd::prelude::*;

use crate::scip_error::ScipError;
use crate::text::text_eq;

verus! {

/// A parsed SCIP index (`scip::types::Index`).
#[verifier::external_type_specification]
#[verifier::external_body]
pub struct ExIndex(scip::types::Index);

/// A protobuf decoding failure (`protobuf::Error`).
#[verifier::external_type_specification]
#[verifier::external_body]
pub struct ExProtobufError(protobuf::Error);

/// A protobuf JSON parsing failure (`protobuf_json_mapping::ParseError`).
#[verifier::external_type_specification]
#[verifier::external_body]
pub struct ExJsonParseError(protobuf_json_mapping::ParseError);

/// The SCIP input formats the loader reads.
#[derive(Clone, Copy, Debug, PartialEq, Eq)]
pub enum Format {
    Binary,
    Json,
}

/// The format that a file extension names: `scip` for binary protobuf, `json` for protobuf
/// JSON; other extensions, and none, name no format.
pub open spec fn format_named(extension: Option<Seq<char>>) -> Option<Format> {
    match extension {
        Some(x) => if x == "scip"@ {
            Some(Format::Binary)
        } else if x == "json"@ {
            Some(Format::Json)
        } else {
            None
        },
        None => None,
    }
}

impl Format {
    /// The format of the file at `path`, told from its extension (`extension`, as the path
    /// gives it); a path whose extension names no format is an unknown-format error naming it.
    pub fn detect(path: &str, extension: Option<&str>) -> (r: Result<Format, ScipError>)
        ensures
            ({
                let named = format_named(match extension { Some(x) => Some(x@), None => None });
                &&& named matches Some(f) ==> r == Ok::<Format, ScipError>(f)
                &&& named is None ==> (r matches Err(e) && e matches ScipError::UnknownFormat { message, path: p }
                    && message == "SCIP input format could not be detected from extension" && p@ == path@)
            }),
    {
        match extension {
            Some(x) => {
                if text_eq(x, "scip") {
                    Ok(Format::Binary)
                } else if text_eq(x, "json") {
                    Ok(Format::Json)
                } else {
                    Err(ScipError::unknown_format(path.to_owned()))
                }
            },
            None => Err(ScipError::unknown_format(path.to_owned())),
        }
    }
}

/// Whether `protobuf::Message::parse_from_bytes` accepts the bytes as a SCIP index.
pub uninterp spec fn scip_binary_parses(bytes: Seq<u8>) -> bool;

/// Whether `protobuf_json_mapping::parse_from_str` accepts the text as a SCIP index.
pub uninterp spec fn scip_json_parses(text: Seq<char>) -> bool;

/// The index `protobuf::Message::parse_from_bytes` decodes from the bytes, when it accepts them.
pub uninterp spec fn scip_binary_index(bytes: Seq<u8>) -> scip::types::Index;

/// The index `protobuf_json_mapping::parse_from_str` parses from the text, when it accepts it.
pub uninterp spec fn scip_json_index(text: Seq<char>) -> scip::types::Index;

/// The text `String::from_utf8_lossy` makes of the bytes (invalid sequences replaced).
pub uninterp spec fn utf8_lossy_text(bytes: Seq<u8>) -> Seq<char>;

/// Decodes a binary SCIP index: `<scip::types::Index as protobuf::Message>::parse_from_bytes`.
/// Whether it succeeds, and the index it decodes, depend on the bytes alone.
#[verifier::external_body]
pub(crate) fn parse_binary_index(bytes: &[u8]) -> (r: Result<scip::types::Index, protobuf::Error>)
    ensures
        r is Ok <==> scip_binary_parses(bytes@),
        r matches Ok(i) ==> i == scip_binary_index(bytes@),
{
    <scip::types::Index as protobuf::Message>::parse_from_bytes(bytes)
}

/// Parses a SCIP index from protobuf JSON: `protobuf_json_mapping::parse_from_str::<Index>`.
/// Whether it succeeds, and the index it parses, depend on the text alone.
#[verifier::external_body]
fn parse_json_index(text: &str) -> (r: Result<scip::types::Index, protobuf_json_mapping::ParseError>)
    ensures
        r is Ok <==> scip_json_parses(text@),
        r matches Ok(i) ==> i == scip_json_index(text@),
{
    protobuf_json_mapping::parse_from_str::<scip::types::Index>(text)
}

/// The bytes as text, invalid UTF-8 replaced: `String::from_utf8_lossy`.
#[verifier::external_body]
fn utf8_lossy(bytes: &[u8]) -> (r: String)
    ensures
        r@ == utf8_lossy_text(bytes@),
{
    String::from_utf8_lossy(bytes).into_owned()
}

/// Parses the contents of the SCIP file at `path` in the given format. A binary index that
/// does not decode, or a JSON index (read as UTF-8, invalid sequences replaced) that does not
/// parse, is a parse failure naming the path and the format.
pub fn parse_scip_index(path: &str, bytes: &[u8], format: Format) -> (r: Result<scip::types::Index, ScipError>)
    ensures
        format == Format::Binary ==> (r is Ok <==> scip_binary_parses(bytes@)),
        format == Format::Json ==> (r is Ok <==> scip_json_parses(utf8_lossy_text(bytes@))),
        format == Format::Binary ==> (r matches Ok(i) ==> i == scip_binary_index(bytes@)),
        format == Format::Json ==> (r matches Ok(i) ==> i == scip_json_index(utf8_lossy_text(bytes@))),
        format == Format::Binary ==> (r matches Err(e) ==> (e matches ScipError::ParseFailed { message, path: p }
            && message == "failed to parse binary SCIP protobuf" && p@ == path@)),
        format == Format::Json ==> (r matches Err(e) ==> (e matches ScipError::ParseFailed { message, path: p }
            && message == "failed to parse SCIP protobuf JSON" && p@ == path@)),
{
    match format {
        Format::Binary => match parse_binary_index(bytes) {
            Ok(index) => Ok(index),
            Err(_) => Err(ScipError::parse_failed(path.to_owned(), "failed to parse binary SCIP protobuf")),
        },
        Format::Json => {
            let text = utf8_lossy(bytes);
            match parse_json_index(text.as_str()) {
                Ok(index) => Ok(index),
                Err(_) => Err(ScipError::parse_failed(path.to_owned(), "failed to parse SCIP protobuf JSON")),
            }
        },
    }
}

} // verus!
