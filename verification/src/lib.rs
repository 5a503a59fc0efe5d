//! Semantic model, queries, reports and error mapping of a SCIP-backed code index.
pub mod text;
pub mod ids;
pub mod element_kind;
pub mod summaries;
pub mod semantic_model;
pub mod scip_error;
pub mod mcp_error;
pub mod protocol;
pub mod keyed_table;
pub mod project_cache;
pub mod resolve;
pub mod queries;
pub mod scip_index;
pub mod decode;
pub mod hotspots;
pub mod report;
pub mod tools;
pub mod sampling;
pub mod indexer;
pub mod laws;
pub mod query_laws;

pub use decode::decode_scip_from_bytes;
pub use element_kind::ElementKind;
pub use ids::{Span, StableId, SymbolId};
pub use mcp_error::McpError;
pub use project_cache::ProjectCache;
pub use protocol::{scip_to_protocol_error, to_protocol_error};
pub use queries::{RustScipGenerateResult, ScipProjectResult};
pub use report::{build_element_brief, build_project_summary, ReportError};
pub use scip_index::Format;
pub use semantic_model::SemanticModel;
pub use summaries::{
    CallEdge, CallEdge as CallEdgeSummary, ElementSummary, File, File as FileSummary, FiveW,
    FunctionParameterSummary, FunctionSignatureSummary, Language, Project,
    Project as ProjectSummary, ProjectReport, SourceSpan, SymbolReferenceSummary, TypeReference,
    TypeReference as TypeReferenceSummary,
};
