//! The server's tool requests over the project cache: their parameters, defaults and errors.
use vstd::prelude::*;

use crate::mcp_error::McpError;
use crate::project_cache::ProjectCache;
use crate::queries::{list_elements, listed_elements, first_n, limit_or_default};
use crate::report::{build_element_brief, is_element_brief, ElementBrief};
use crate::resolve::{cached_models, element_error_owed, element_hits, resolve_element};
use crate::semantic_model::{deref_all, element_answers_to, first_where, lemma_first_where_found, SemanticModel};
use crate::summaries::{ElementSummary, ProjectReport};
use crate::report::build_project_summary;
use crate::hotspots::are_hotspot_lines;
use crate::report::{reference_paths, PROJECT_HOTSPOT_LIMIT};
use crate::text::{owned, texts};

verus! {

/// How many references a brief shows when the request names no limit.
pub const DEFAULT_REFERENCE_LIMIT: usize = 20;

/// Parameters of an element listing.
#[derive(Clone, Debug)]
pub struct ElementQueryParams {
    pub project_id: String,
    pub kind: Option<String>,
    pub path: Option<String>,
    pub limit: Option<usize>,
}

/// Parameters of an element brief.
#[derive(Clone, Debug)]
pub struct ElementBriefParams {
    pub symbol_id: String,
    pub project_id: Option<String>,
    pub include_inferred: Option<bool>,
    pub reference_limit: Option<usize>,
}

/// Parameters of a rust-analyzer SCIP generation.
#[derive(Clone, Debug)]
pub struct RustScipGenerateParams {
    pub path: String,
    pub output_path: String,
    pub config_path: Option<String>,
    pub exclude_vendored_libraries: Option<bool>,
    pub num_threads: Option<usize>,
}

/// Parameters of a project brief for a language model.
#[derive(Clone, Debug)]
pub struct LlmBriefParams {
    pub project_id: String,
    pub symbol_ids: Option<Vec<String>>,
    pub limit: Option<usize>,
    pub reference_limit: Option<usize>,
    pub include_inferred: Option<bool>,
    pub budget_tokens: Option<usize>,
    pub brief_model: Option<String>,
    pub max_concurrent_requests: Option<usize>,
}

/// The 5W statements of a generated brief, one sentence each.
#[derive(Clone, Debug, PartialEq, Eq)]
pub struct GeneratedFiveW {
    pub who: String,
    pub what: String,
    pub when: String,
    pub where_: String,
    pub why: String,
    pub how: String,
}

/// What identifies a generated brief in a cache.
#[derive(Clone, Debug, PartialEq, Eq)]
pub struct BriefCacheKey {
    pub project_id: String,
    pub symbol_id: String,
    pub evidence_hash: String,
    pub prompt_version: String,
    pub brief_model: String,
}

/// A brief generated by a language model from an element's evidence.
#[derive(Clone, Debug, PartialEq, Eq)]
pub struct GeneratedBrief {
    pub summary: String,
    pub five_w: GeneratedFiveW,
    pub unknowns: Vec<String>,
    pub evidence_hash: String,
    pub cache_key: BriefCacheKey,
    pub generated_by_model: String,
    pub prompt_version: String,
}

/// The error owed for a project that is not cached.
pub open spec fn missing_project_error(e: McpError, project_id: Seq<char>) -> bool {
    e matches McpError::MissingProject { message, project_id: p }
        && message == "requested RefactorRadar project was not found" && p@ == project_id
}

/// The summary of the cached project `project_id`.
pub fn get_project_summary(cache: &ProjectCache, project_id: &str) -> (r: Result<ProjectReport, McpError>)
    requires
        cache.wf(),
    ensures
        match r {
            Ok(report) => cache.models@.dom().contains(project_id@) && ({
                let m = cache.models@[project_id@];
                &&& report.project_id@ == m.project.project_id@
                &&& report.document_count == m.files@.len()
                &&& report.element_count == m.elements@.len()
                &&& report.reference_count == m.references@.len()
                &&& are_hotspot_lines(reference_paths(m.references@), PROJECT_HOTSPOT_LIMIT as nat, texts(report.hotspot_files@))
            }),
            Err(e) => !cache.models@.dom().contains(project_id@) && missing_project_error(e, project_id@),
        },
{
    match cache.model(project_id) {
        Some(model) => Ok(build_project_summary(model)),
        None => Err(McpError::missing_project(owned(project_id))),
    }
}

/// The elements of the cached project that pass the listing's kind and path filters, at most
/// the requested number (100 by default).
pub fn list_project_elements<'a>(cache: &'a ProjectCache, params: &ElementQueryParams) -> (r: Result<Vec<&'a ElementSummary>, McpError>)
    requires
        cache.wf(),
    ensures
        match r {
            Ok(v) => cache.models@.dom().contains(params.project_id@) && deref_all(v@) == first_n(
                listed_elements(
                    cache.models@[params.project_id@].elements@,
                    match params.kind { Some(k) => Some(k@), None => None },
                    match params.path { Some(p) => Some(p@), None => None },
                ),
                limit_or_default(params.limit),
            ),
            Err(e) => !cache.models@.dom().contains(params.project_id@) && missing_project_error(e, params.project_id@),
        },
{
    match cache.model(params.project_id.as_str()) {
        Some(model) => {
            let kind = match &params.kind {
                Some(k) => Some(k.as_str()),
                None => None,
            };
            let path = match &params.path {
                Some(p) => Some(p.as_str()),
                None => None,
            };
            Ok(list_elements(model, kind, path, params.limit))
        },
        None => Err(McpError::missing_project(owned(params.project_id.as_str()))),
    }
}

/// The element a brief is built for: the first element of the model answering to the
/// resolved element's symbol id.
pub open spec fn brief_subject(m: SemanticModel, e: ElementSummary) -> Option<ElementSummary> {
    first_where(m.elements@, |x: ElementSummary| element_answers_to(x, e.symbol_id@))
}

/// Resolves `requested` to one cached element (see `resolve_element`) and builds its brief
/// in that element's project.
fn brief_for<'a>(cache: &'a ProjectCache, requested: &str, include_inferred: bool, reference_limit: usize) -> (r: Result<ElementBrief<'a>, McpError>)
    ensures
        ({
            let hits = element_hits(cached_models(cache), requested@);
            &&& r is Ok <==> hits.len() == 1
            &&& r matches Ok(b) ==> (brief_subject(hits[0].0, hits[0].1) matches Some(s)
                && is_element_brief(hits[0].0, s, include_inferred, reference_limit as nat, b))
            &&& r matches Err(e) ==> element_error_owed(hits, requested@, e)
        }),
{
    match resolve_element(cache, requested) {
        Ok((model, element)) => {
            let ghost hits = element_hits(cached_models(cache), requested@);
            proof {
                lemma_element_hit_in_model(cached_models(cache), requested@, 0);
                lemma_first_where_found(model.elements@, |x: ElementSummary| element_answers_to(x, element.symbol_id@));
                let i = choose|i: int| 0 <= i < model.elements@.len() && model.elements@[i] == *element;
                assert(element_answers_to(model.elements@[i], element.symbol_id@));
            }
            match build_element_brief(model, element.symbol_id.as_str(), include_inferred, reference_limit) {
                Ok(b) => Ok(b),
                Err(e) => Err(McpError::report_generation_failed(owned(e.message()))),
            }
        },
        Err(e) => Err(e),
    }
}

/// Each hit pairs a model with an element of that model.
proof fn lemma_element_hit_in_model(models: Seq<SemanticModel>, requested: Seq<char>, i: int)
    requires
        0 <= i < crate::resolve::element_hits(models, requested).len(),
    ensures
        element_hits(models, requested)[i].0.elements@.contains(element_hits(models, requested)[i].1),
    decreases models.len(),
{
    let rest = element_hits(models.drop_last(), requested);
    if i < rest.len() {
        lemma_element_hit_in_model(models.drop_last(), requested, i);
        assert(element_hits(models, requested)[i] == rest[i]);
    } else {
        let m = models.last();
        let scip = crate::resolve::scip_id_of(requested);
        lemma_first_where_found(m.elements@, |e: ElementSummary| element_answers_to(e, requested));
        lemma_first_where_found(m.elements@, |e: ElementSummary| element_answers_to(e, scip));
    }
}

/// The brief of the element that `params.symbol_id` names, inference on unless switched
/// off and at most 20 references unless another limit is given.
pub fn get_element_brief<'a>(cache: &'a ProjectCache, params: &ElementBriefParams) -> (r: Result<ElementBrief<'a>, McpError>)
    ensures
        ({
            let hits = element_hits(cached_models(cache), params.symbol_id@);
            let inferring = match params.include_inferred { Some(b) => b, None => true };
            let limit = match params.reference_limit { Some(n) => n as nat, None => DEFAULT_REFERENCE_LIMIT as nat };
            &&& r is Ok <==> hits.len() == 1
            &&& r matches Ok(b) ==> (brief_subject(hits[0].0, hits[0].1) matches Some(s)
                && is_element_brief(hits[0].0, s, inferring, limit, b))
            &&& r matches Err(e) ==> element_error_owed(hits, params.symbol_id@, e)
        }),
{
    let inferring = match params.include_inferred {
        Some(b) => b,
        None => true,
    };
    let limit = match params.reference_limit {
        Some(n) => n,
        None => DEFAULT_REFERENCE_LIMIT,
    };
    brief_for(cache, params.symbol_id.as_str(), inferring, limit)
}

/// The 5W summary of the element that `requested` names: its brief with inference on and at
/// most 20 references unless another limit is given.
pub fn get_5w_summary<'a>(cache: &'a ProjectCache, requested: &str, reference_limit: Option<usize>) -> (r: Result<ElementBrief<'a>, McpError>)
    ensures
        ({
            let hits = element_hits(cached_models(cache), requested@);
            let limit = match reference_limit { Some(n) => n as nat, None => DEFAULT_REFERENCE_LIMIT as nat };
            &&& r is Ok <==> hits.len() == 1
            &&& r matches Ok(b) ==> (brief_subject(hits[0].0, hits[0].1) matches Some(s)
                && is_element_brief(hits[0].0, s, true, limit, b))
            &&& r matches Err(e) ==> element_error_owed(hits, requested@, e)
        }),
{
    let limit = match reference_limit {
        Some(n) => n,
        None => DEFAULT_REFERENCE_LIMIT,
    };
    brief_for(cache, requested, true, limit)
}

} // verus!
