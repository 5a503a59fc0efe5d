//! How server and SCIP errors are answered on the protocol: an error code, the error's
//! message and a small object of details.
use vstd::prelude::*;

use crate::mcp_error::{mcp_error_message, McpError};
use crate::scip_error::{scip_error_message, ScipError};

verus! {

/// The protocol error codes the server answers with.
#[derive(Clone, Copy, Debug, PartialEq, Eq)]
pub enum ProtocolErrorCode {
    ResourceNotFound,
    InvalidParams,
    InternalError,
}

/// The value of one detail field.
#[derive(Clone, Debug, PartialEq, Eq)]
pub enum DetailValue {
    Text(String),
    TextList(Vec<String>),
    Status(Option<i32>),
}

/// One named detail of a protocol error.
#[derive(Clone, Debug, PartialEq, Eq)]
pub struct DetailField {
    pub key: &'static str,
    pub value: DetailValue,
}

/// The detail object of a protocol error: absent, or one or two named fields in order.
#[derive(Clone, Debug, PartialEq, Eq)]
pub enum Details {
    Absent,
    One(DetailField),
    Two(DetailField, DetailField),
}

/// A protocol error: code, message and the detail object.
#[derive(Clone, Debug, PartialEq, Eq)]
pub struct ProtocolError {
    pub code: ProtocolErrorCode,
    pub message: &'static str,
    pub data: Details,
}

/// The detail fields of `e`, as a sequence (empty when `e` has no detail object).
pub open spec fn details_of(e: ProtocolError) -> Seq<DetailField> {
    match e.data {
        Details::Absent => Seq::empty(),
        Details::One(a) => seq![a],
        Details::Two(a, b) => seq![a, b],
    }
}

/// A detail field with a text value.
pub open spec fn text_field(key: &'static str, value: String) -> DetailField {
    DetailField { key, value: DetailValue::Text(value) }
}

/// The protocol answer owed for a server error.
pub open spec fn mcp_error_answer(error: McpError, r: ProtocolError) -> bool {
    &&& r.message == mcp_error_message(error)
    &&& !(r.data is Absent)
    &&& match error {
        McpError::MissingProject { project_id, .. } => r.code == ProtocolErrorCode::ResourceNotFound
            && details_of(r) == seq![text_field("project_id", project_id)],
        McpError::MissingElement { symbol_id, .. } => r.code == ProtocolErrorCode::ResourceNotFound
            && details_of(r) == seq![text_field("symbol_id", symbol_id)],
        McpError::MissingSymbol { symbol_id, .. } => r.code == ProtocolErrorCode::ResourceNotFound
            && details_of(r) == seq![text_field("symbol_id", symbol_id)],
        McpError::MissingSpan { span_id, .. } => r.code == ProtocolErrorCode::ResourceNotFound
            && details_of(r) == seq![text_field("span_id", span_id)],
        McpError::UnsupportedFormat { format, .. } => r.code == ProtocolErrorCode::InvalidParams
            && details_of(r) == seq![text_field("format", format)],
        McpError::AmbiguousSymbol { symbol_id, project_ids, .. } => r.code
            == ProtocolErrorCode::InvalidParams && details_of(r) == seq![
            text_field("symbol_id", symbol_id),
            DetailField { key: "project_ids", value: DetailValue::TextList(project_ids) },
        ],
        McpError::SerializationFailed { details, .. } => r.code == ProtocolErrorCode::InternalError
            && details_of(r) == seq![text_field("details", details)],
        McpError::ReportGenerationFailed { details, .. } => r.code
            == ProtocolErrorCode::InternalError && details_of(r) == seq![
            text_field("details", details),
        ],
        McpError::ServerRuntime { details, .. } => r.code == ProtocolErrorCode::InternalError
            && details_of(r) == seq![text_field("details", details)],
        McpError::GeneratedScipMetadataReadFailed { path, details, .. } => r.code
            == ProtocolErrorCode::InternalError && details_of(r) == seq![
            text_field("path", path),
            text_field("details", details),
        ],
        McpError::TemporaryScipOutputCreationFailed { path, details, .. } => r.code
            == ProtocolErrorCode::InternalError && details_of(r) == seq![
            text_field("path", path),
            text_field("details", details),
        ],
    }
}

/// The protocol answer owed for a SCIP error.
pub open spec fn scip_error_answer(error: ScipError, r: ProtocolError) -> bool {
    &&& r.message == scip_error_message(error)
    &&& match error {
        ScipError::UnknownFormat { path, .. } => r.code == ProtocolErrorCode::InvalidParams
            && !(r.data is Absent) && details_of(r) == seq![text_field("path", path)],
        ScipError::RustAnalyzerMissing { executable, .. } => r.code
            == ProtocolErrorCode::InternalError && !(r.data is Absent) && details_of(r) == seq![
            text_field("executable", executable),
        ],
        ScipError::RustAnalyzerLaunchFailed { executable, details, .. } => r.code
            == ProtocolErrorCode::InternalError && !(r.data is Absent) && details_of(r) == seq![
            text_field("executable", executable),
            text_field("details", details),
        ],
        ScipError::RustAnalyzerFailed { status, stderr, .. } => r.code
            == ProtocolErrorCode::InternalError && !(r.data is Absent) && details_of(r) == seq![
            DetailField { key: "status", value: DetailValue::Status(status) },
            text_field("stderr", stderr),
        ],
        ScipError::ReadFailed { path, .. } => r.code == ProtocolErrorCode::InternalError
            && !(r.data is Absent) && details_of(r) == seq![text_field("path", path)],
        ScipError::ParseFailed { path, .. } => r.code == ProtocolErrorCode::InternalError
            && !(r.data is Absent) && details_of(r) == seq![text_field("path", path)],
        ScipError::CoreProjectionFailed { .. } => r.code == ProtocolErrorCode::InternalError
            && r.data is Absent,
    }
}

/// The protocol answer for a server error, field by field.
pub open spec fn mcp_protocol_answer(error: McpError) -> ProtocolError {
    match error {
        McpError::MissingProject { message, project_id } => ProtocolError {
            code: ProtocolErrorCode::ResourceNotFound,
            message,
            data: Details::One(text_field("project_id", project_id)),
        },
        McpError::MissingElement { message, symbol_id } => ProtocolError {
            code: ProtocolErrorCode::ResourceNotFound,
            message,
            data: Details::One(text_field("symbol_id", symbol_id)),
        },
        McpError::MissingSymbol { message, symbol_id } => ProtocolError {
            code: ProtocolErrorCode::ResourceNotFound,
            message,
            data: Details::One(text_field("symbol_id", symbol_id)),
        },
        McpError::MissingSpan { message, span_id } => ProtocolError {
            code: ProtocolErrorCode::ResourceNotFound,
            message,
            data: Details::One(text_field("span_id", span_id)),
        },
        McpError::UnsupportedFormat { message, format } => ProtocolError {
            code: ProtocolErrorCode::InvalidParams,
            message,
            data: Details::One(text_field("format", format)),
        },
        McpError::AmbiguousSymbol { message, symbol_id, project_ids } => ProtocolError {
            code: ProtocolErrorCode::InvalidParams,
            message,
            data: Details::Two(
                text_field("symbol_id", symbol_id),
                DetailField { key: "project_ids", value: DetailValue::TextList(project_ids) },
            ),
        },
        McpError::SerializationFailed { message, details } => ProtocolError {
            code: ProtocolErrorCode::InternalError,
            message,
            data: Details::One(text_field("details", details)),
        },
        McpError::ReportGenerationFailed { message, details } => ProtocolError {
            code: ProtocolErrorCode::InternalError,
            message,
            data: Details::One(text_field("details", details)),
        },
        McpError::ServerRuntime { message, details } => ProtocolError {
            code: ProtocolErrorCode::InternalError,
            message,
            data: Details::One(text_field("details", details)),
        },
        McpError::GeneratedScipMetadataReadFailed { message, path, details } => ProtocolError {
            code: ProtocolErrorCode::InternalError,
            message,
            data: Details::Two(text_field("path", path), text_field("details", details)),
        },
        McpError::TemporaryScipOutputCreationFailed { message, path, details } => ProtocolError {
            code: ProtocolErrorCode::InternalError,
            message,
            data: Details::Two(text_field("path", path), text_field("details", details)),
        },
    }
}

/// The protocol answer for a SCIP error, field by field.
pub open spec fn scip_protocol_answer(error: ScipError) -> ProtocolError {
    match error {
        ScipError::UnknownFormat { message, path } => ProtocolError {
            code: ProtocolErrorCode::InvalidParams,
            message,
            data: Details::One(text_field("path", path)),
        },
        ScipError::RustAnalyzerMissing { message, executable } => ProtocolError {
            code: ProtocolErrorCode::InternalError,
            message,
            data: Details::One(text_field("executable", executable)),
        },
        ScipError::RustAnalyzerLaunchFailed { message, executable, details } => ProtocolError {
            code: ProtocolErrorCode::InternalError,
            message,
            data: Details::Two(text_field("executable", executable), text_field("details", details)),
        },
        ScipError::RustAnalyzerFailed { message, status, stderr } => ProtocolError {
            code: ProtocolErrorCode::InternalError,
            message,
            data: Details::Two(
                DetailField { key: "status", value: DetailValue::Status(status) },
                text_field("stderr", stderr),
            ),
        },
        ScipError::ReadFailed { message, path } => ProtocolError {
            code: ProtocolErrorCode::InternalError,
            message,
            data: Details::One(text_field("path", path)),
        },
        ScipError::ParseFailed { message, path } => ProtocolError {
            code: ProtocolErrorCode::InternalError,
            message,
            data: Details::One(text_field("path", path)),
        },
        ScipError::CoreProjectionFailed { message } => ProtocolError {
            code: ProtocolErrorCode::InternalError,
            message,
            data: Details::Absent,
        },
    }
}

fn text(key: &'static str, value: String) -> (r: DetailField)
    ensures
        r == text_field(key, value),
{
    DetailField { key, value: DetailValue::Text(value) }
}

/// Answers a server error on the protocol: missing projects, elements, symbols and spans as
/// "resource not found", bad formats and ambiguous ids as "invalid params", and everything
/// else as "internal error", each with the error's message and its identifying fields.
pub fn to_protocol_error(error: McpError) -> (r: ProtocolError)
    ensures
        r == mcp_protocol_answer(error),
        mcp_error_answer(error, r),
{
    match error {
        McpError::MissingProject { message, project_id } => ProtocolError {
            code: ProtocolErrorCode::ResourceNotFound,
            message,
            data: Details::One(text("project_id", project_id)),
        },
        McpError::MissingElement { message, symbol_id } => ProtocolError {
            code: ProtocolErrorCode::ResourceNotFound,
            message,
            data: Details::One(text("symbol_id", symbol_id)),
        },
        McpError::MissingSymbol { message, symbol_id } => ProtocolError {
            code: ProtocolErrorCode::ResourceNotFound,
            message,
            data: Details::One(text("symbol_id", symbol_id)),
        },
        McpError::MissingSpan { message, span_id } => ProtocolError {
            code: ProtocolErrorCode::ResourceNotFound,
            message,
            data: Details::One(text("span_id", span_id)),
        },
        McpError::UnsupportedFormat { message, format } => ProtocolError {
            code: ProtocolErrorCode::InvalidParams,
            message,
            data: Details::One(text("format", format)),
        },
        McpError::AmbiguousSymbol { message, symbol_id, project_ids } => ProtocolError {
            code: ProtocolErrorCode::InvalidParams,
            message,
            data: Details::Two(
                text("symbol_id", symbol_id),
                DetailField { key: "project_ids", value: DetailValue::TextList(project_ids) },
            ),
        },
        McpError::SerializationFailed { message, details } => ProtocolError {
            code: ProtocolErrorCode::InternalError,
            message,
            data: Details::One(text("details", details)),
        },
        McpError::ReportGenerationFailed { message, details } => ProtocolError {
            code: ProtocolErrorCode::InternalError,
            message,
            data: Details::One(text("details", details)),
        },
        McpError::ServerRuntime { message, details } => ProtocolError {
            code: ProtocolErrorCode::InternalError,
            message,
            data: Details::One(text("details", details)),
        },
        McpError::GeneratedScipMetadataReadFailed { message, path, details } => ProtocolError {
            code: ProtocolErrorCode::InternalError,
            message,
            data: Details::Two(text("path", path), text("details", details)),
        },
        McpError::TemporaryScipOutputCreationFailed { message, path, details } => ProtocolError {
            code: ProtocolErrorCode::InternalError,
            message,
            data: Details::Two(text("path", path), text("details", details)),
        },
    }
}

/// Answers a SCIP error on the protocol: an undetectable format as "invalid params", every
/// other failure as "internal error", with the error's message and its identifying fields
/// (none for a failed range projection).
pub fn scip_to_protocol_error(error: ScipError) -> (r: ProtocolError)
    ensures
        r == scip_protocol_answer(error),
        scip_error_answer(error, r),
{
    match error {
        ScipError::UnknownFormat { message, path } => ProtocolError {
            code: ProtocolErrorCode::InvalidParams,
            message,
            data: Details::One(text("path", path)),
        },
        ScipError::RustAnalyzerMissing { message, executable } => ProtocolError {
            code: ProtocolErrorCode::InternalError,
            message,
            data: Details::One(text("executable", executable)),
        },
        ScipError::RustAnalyzerLaunchFailed { message, executable, details } => ProtocolError {
            code: ProtocolErrorCode::InternalError,
            message,
            data: Details::Two(text("executable", executable), text("details", details)),
        },
        ScipError::RustAnalyzerFailed { message, status, stderr } => ProtocolError {
            code: ProtocolErrorCode::InternalError,
            message,
            data: Details::Two(
                DetailField { key: "status", value: DetailValue::Status(status) },
                text("stderr", stderr),
            ),
        },
        ScipError::ReadFailed { message, path } => ProtocolError {
            code: ProtocolErrorCode::InternalError,
            message,
            data: Details::One(text("path", path)),
        },
        ScipError::ParseFailed { message, path } => ProtocolError {
            code: ProtocolErrorCode::InternalError,
            message,
            data: Details::One(text("path", path)),
        },
        ScipError::CoreProjectionFailed { message } => ProtocolError {
            code: ProtocolErrorCode::InternalError,
            message,
            data: Details::Absent,
        },
    }
}

impl From<McpError> for ProtocolError {
    /// The protocol answer for a server error (see `to_protocol_error`).
    fn from(error: McpError) -> (r: Self) {
        to_protocol_error(error)
    }
}

impl vstd::std_specs::convert::FromSpecImpl<McpError> for ProtocolError {
    open spec fn obeys_from_spec() -> bool {
        true
    }

    open spec fn from_spec(error: McpError) -> Self {
        mcp_protocol_answer(error)
    }
}

} // verus!
