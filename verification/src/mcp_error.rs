//! Errors of the query server.
use vstd::prelude::*;

verus! {

/// A failure of a server request.
#[derive(Debug)]
pub enum McpError {
    MissingProject { message: &'static str, project_id: String },
    MissingElement { message: &'static str, symbol_id: String },
    MissingSymbol { message: &'static str, symbol_id: String },
    MissingSpan { message: &'static str, span_id: String },
    UnsupportedFormat { message: &'static str, format: String },
    AmbiguousSymbol { message: &'static str, symbol_id: String, project_ids: Vec<String> },
    SerializationFailed { message: &'static str, details: String },
    GeneratedScipMetadataReadFailed { message: &'static str, path: String, details: String },
    TemporaryScipOutputCreationFailed { message: &'static str, path: String, details: String },
    ReportGenerationFailed { message: &'static str, details: String },
    ServerRuntime { message: &'static str, details: String },
}

/// The message that a server error carries.
pub open spec fn mcp_error_message(error: McpError) -> &'static str {
    match error {
        McpError::MissingProject { message, .. } => message,
        McpError::MissingElement { message, .. } => message,
        McpError::MissingSymbol { message, .. } => message,
        McpError::MissingSpan { message, .. } => message,
        McpError::UnsupportedFormat { message, .. } => message,
        McpError::AmbiguousSymbol { message, .. } => message,
        McpError::SerializationFailed { message, .. } => message,
        McpError::GeneratedScipMetadataReadFailed { message, .. } => message,
        McpError::TemporaryScipOutputCreationFailed { message, .. } => message,
        McpError::ReportGenerationFailed { message, .. } => message,
        McpError::ServerRuntime { message, .. } => message,
    }
}

impl McpError {
    /// The requested project is not in the cache.
    pub fn missing_project(project_id: String) -> (r: Self)
        ensures
            r == (McpError::MissingProject { message: "requested RefactorRadar project was not found", project_id }),
    {
        McpError::MissingProject { message: "requested RefactorRadar project was not found", project_id }
    }

    /// No cached element answers to the requested id.
    pub fn missing_element(symbol_id: String) -> (r: Self)
        ensures
            r == (McpError::MissingElement { message: "requested RefactorRadar element was not found", symbol_id }),
    {
        McpError::MissingElement { message: "requested RefactorRadar element was not found", symbol_id }
    }

    /// No cached project knows the requested symbol.
    pub fn missing_symbol(symbol_id: String) -> (r: Self)
        ensures
            r == (McpError::MissingSymbol { message: "requested RefactorRadar symbol was not found", symbol_id }),
    {
        McpError::MissingSymbol { message: "requested RefactorRadar symbol was not found", symbol_id }
    }

    /// No cached project has a span with the requested id.
    pub fn missing_span(span_id: String) -> (r: Self)
        ensures
            r == (McpError::MissingSpan { message: "requested RefactorRadar source span was not found", span_id }),
    {
        McpError::MissingSpan { message: "requested RefactorRadar source span was not found", span_id }
    }

    /// The requested SCIP format name is not one the loader reads.
    pub fn unsupported_format(format: String) -> (r: Self)
        ensures
            r == (McpError::UnsupportedFormat { message: "unsupported SCIP format", format }),
    {
        McpError::UnsupportedFormat { message: "unsupported SCIP format", format }
    }

    /// The requested id matched in more than one cached project.
    pub fn ambiguous_symbol(symbol_id: String, project_ids: Vec<String>) -> (r: Self)
        ensures
            r == (McpError::AmbiguousSymbol { message: "symbol id matched more than one cached project", symbol_id, project_ids }),
    {
        McpError::AmbiguousSymbol { message: "symbol id matched more than one cached project", symbol_id, project_ids }
    }

    /// A tool result could not be serialised.
    pub fn serialization_failed(details: String) -> (r: Self)
        ensures
            r == (McpError::SerializationFailed { message: "failed to serialize MCP tool result", details }),
    {
        McpError::SerializationFailed { message: "failed to serialize MCP tool result", details }
    }

    /// The metadata of a freshly generated SCIP file could not be read.
    pub fn generated_scip_metadata_read_failed(path: String, details: String) -> (r: Self)
        ensures
            r == (McpError::GeneratedScipMetadataReadFailed { message: "failed to read generated SCIP file metadata", path, details }),
    {
        McpError::GeneratedScipMetadataReadFailed { message: "failed to read generated SCIP file metadata", path, details }
    }

    /// No temporary file for the SCIP output could be created.
    pub fn temporary_scip_output_creation_failed(path: String, details: String) -> (r: Self)
        ensures
            r == (McpError::TemporaryScipOutputCreationFailed { message: "failed to create temporary SCIP output file", path, details }),
    {
        McpError::TemporaryScipOutputCreationFailed { message: "failed to create temporary SCIP output file", path, details }
    }

    /// A report could not be built.
    pub fn report_generation_failed(details: String) -> (r: Self)
        ensures
            r == (McpError::ReportGenerationFailed { message: "RefactorRadar report generation failed", details }),
    {
        McpError::ReportGenerationFailed { message: "RefactorRadar report generation failed", details }
    }

    /// The server itself failed.
    pub fn server_runtime(details: String) -> (r: Self)
        ensures
            r == (McpError::ServerRuntime { message: "RefactorRadar MCP server failed", details }),
    {
        McpError::ServerRuntime { message: "RefactorRadar MCP server failed", details }
    }

    /// The error's message.
    pub fn message(&self) -> (r: &'static str)
        ensures
            r == mcp_error_message(*self),
    {
        match self {
            McpError::MissingProject { message, .. } => message,
            McpError::MissingElement { message, .. } => message,
            McpError::MissingSymbol { message, .. } => message,
            McpError::MissingSpan { message, .. } => message,
            McpError::UnsupportedFormat { message, .. } => message,
            McpError::AmbiguousSymbol { message, .. } => message,
            McpError::SerializationFailed { message, .. } => message,
            McpError::GeneratedScipMetadataReadFailed { message, .. } => message,
            McpError::TemporaryScipOutputCreationFailed { message, .. } => message,
            McpError::ReportGenerationFailed { message, .. } => message,
            McpError::ServerRuntime { message, .. } => message,
        }
    }
}

} // verus!
