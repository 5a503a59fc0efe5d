//! The summaries that make up a projected semantic model.
use vstd::prelude::*;

use crate::element_kind::ElementKind;
use crate::ids::{span_text, Span, StableId, SymbolId};
use crate::scip_error::ScipError;

verus! {

/// A range of source text in one document, with 1-based lines and columns.
#[derive(Clone, Debug, Eq, PartialEq)]
pub struct SourceSpan {
    pub id: Span,
    pub document_path: String,
    pub start_line: u32,
    pub start_column: u32,
    pub end_line: u32,
    pub end_column: u32,
}

/// The 1-based start and end (line, column, line, column) of a SCIP range: three numbers
/// `[line, start, end]` for a single line or four `[start line, start, end line, end]`, all
/// zero-based and none negative. Other shapes have no span.
pub open spec fn scip_range_bounds(range: Seq<i32>) -> Option<(u32, u32, u32, u32)> {
    if (range.len() == 3 || range.len() == 4) && forall|i: int| 0 <= i < range.len() ==> range[i] >= 0 {
        if range.len() == 3 {
            Some(((range[0] + 1) as u32, (range[1] + 1) as u32, (range[0] + 1) as u32, (range[2] + 1) as u32))
        } else {
            Some(((range[0] + 1) as u32, (range[1] + 1) as u32, (range[2] + 1) as u32, (range[3] + 1) as u32))
        }
    } else {
        None
    }
}

impl SourceSpan {
    /// The span of a SCIP range in a document, its id built from the project, the document and
    /// the 1-based start. A range of another shape, or with a negative number, cannot be
    /// projected.
    pub fn from_scip_range(project_id: &str, document_path: &str, range: &[i32]) -> (r: Result<SourceSpan, ScipError>)
        ensures
            match scip_range_bounds(range@) {
                Some((sl, sc, el, ec)) => r matches Ok(s) && s.id@ == span_text(project_id@, document_path@, sl, sc)
                    && s.document_path@ == document_path@ && s.start_line == sl && s.start_column == sc
                    && s.end_line == el && s.end_column == ec,
                None => r matches Err(ScipError::CoreProjectionFailed { message })
                    && message == "failed to project SCIP source range",
            },
    {
        let n = range.len();
        if n != 3 && n != 4 {
            return Err(ScipError::core_projection_failed());
        }
        let mut i: usize = 0;
        while i < n
            invariant
                n == range@.len(),
                i <= n,
                forall|j: int| 0 <= j < i ==> range@[j] >= 0,
            decreases n - i,
        {
            if range[i] < 0 {
                return Err(ScipError::core_projection_failed());
            }
            i = i + 1;
        }
        let start_line = (range[0] as u32) + 1;
        let start_column = (range[1] as u32) + 1;
        let (end_line, end_column) = if n == 3 {
            (start_line, (range[2] as u32) + 1)
        } else {
            ((range[2] as u32) + 1, (range[3] as u32) + 1)
        };
        Ok(SourceSpan {
            id: Span::new(project_id, document_path, start_line, start_column),
            document_path: document_path.to_owned(),
            start_line,
            start_column,
            end_line,
            end_column,
        })
    }

    /// An identical copy.
    pub fn copy(&self) -> (r: Self)
        ensures
            r == *self,
    {
        SourceSpan {
            id: self.id.copy(),
            document_path: self.document_path.clone(),
            start_line: self.start_line,
            start_column: self.start_column,
            end_line: self.end_line,
            end_column: self.end_column,
        }
    }
}

/// A call-like relation: a reference to `referenced_symbol_id` found inside the body of
/// `enclosing_symbol_id`.
#[derive(Clone, Debug, Eq, PartialEq)]
pub struct CallEdge {
    pub enclosing_symbol_id: SymbolId,
    pub referenced_symbol_id: SymbolId,
    pub evidence_span: SourceSpan,
    pub confidence: String,
}

/// One indexed document.
#[derive(Clone, Debug, Eq, PartialEq)]
pub struct File {
    pub document_path: String,
    pub language: String,
    pub symbol_count: usize,
    pub occurrence_count: usize,
}

/// Who / what / where / when / why / how statements about an element.
#[derive(Clone, Debug, Eq, PartialEq)]
pub struct FiveW {
    pub who: Vec<String>,
    pub what: Vec<String>,
    pub where_: Vec<String>,
    pub when: Vec<String>,
    pub why: Vec<String>,
    pub how: Vec<String>,
}

/// The indexed project and the tool that produced the index.
#[derive(Clone, Debug, Eq, PartialEq)]
pub struct Project {
    pub project_id: String,
    pub project_root: String,
    pub producer_name: Option<String>,
    pub producer_version: Option<String>,
}

/// Counts and hotspot files of one project.
#[derive(Clone, Debug, Eq, PartialEq)]
pub struct ProjectReport {
    pub project_id: String,
    pub document_count: usize,
    pub element_count: usize,
    pub reference_count: usize,
    pub hotspot_files: Vec<String>,
}

/// A type named in a signature, with its SCIP symbol where the index gives one.
#[derive(Clone, Debug, Eq, PartialEq)]
pub struct TypeReference {
    pub display_text: String,
    pub scip_symbol: Option<String>,
    pub source_span: Option<SourceSpan>,
    pub signature_range: Option<Vec<u32>>,
    pub confidence: String,
}

/// The source language of an element.
#[derive(Clone, Debug, Eq, PartialEq)]
pub enum Language {
    Rust,
    Unknown(String),
}

/// One parameter of a function signature.
#[derive(Clone, Debug, Eq, PartialEq)]
pub struct FunctionParameterSummary {
    pub name: String,
    pub scip_symbol: Option<String>,
    pub parameter_kind: String,
    pub source_span: Option<SourceSpan>,
    pub type_reference: Option<TypeReference>,
}

/// What the index says of a function's signature.
#[derive(Clone, Debug, Eq, PartialEq)]
pub struct FunctionSignatureSummary {
    pub signature_text: Option<String>,
    pub parameters: Vec<FunctionParameterSummary>,
    pub return_type: Option<TypeReference>,
    pub confirmed: Vec<String>,
    pub unknown: Vec<String>,
}

/// One semantic element (a symbol defined in the project).
#[derive(Clone, Debug, Eq, PartialEq)]
pub struct ElementSummary {
    pub stable_id: StableId,
    pub symbol_id: SymbolId,
    pub scip_symbol: String,
    pub language: Language,
    pub kind: ElementKind,
    pub display_name: String,
    pub package: Option<String>,
    pub enclosing_symbol: Option<String>,
    pub definition_span: Option<SourceSpan>,
    pub signature: Option<FunctionSignatureSummary>,
    pub documentation: Vec<String>,
    pub reference_count: usize,
}

/// One occurrence of a symbol outside its definition.
#[derive(Clone, Debug, Eq, PartialEq)]
pub struct SymbolReferenceSummary {
    pub referenced_symbol_id: SymbolId,
    pub source_span: SourceSpan,
    pub document_path: String,
    pub symbol_roles: i32,
}

} // verus!
