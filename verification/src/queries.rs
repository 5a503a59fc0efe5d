//! The server's read-only queries over cached projects: element listing, references, related
//! symbols, source spans, signatures, and the results of loading and generating indexes.
use vstd::prelude::*;

use crate::element_kind::{kind_debug_text, normalize_kind, normalized_kind_text};
use crate::mcp_error::McpError;
use crate::project_cache::{text_of, ProjectCache};
use crate::resolve::{cached_models, element_error_owed, element_hits, resolve_element, resolve_symbol_id, symbol_error_owed, symbol_hits};
use crate::semantic_model::{deref_all, edges_from, edges_to, first_where, occurrence_count, opt_deref, total_occurrences, SemanticModel};
use crate::summaries::{CallEdge, ElementSummary, FunctionSignatureSummary, SourceSpan, SymbolReferenceSummary};
use crate::scip_index::Format;
use crate::text::{char_prefix, char_prefix_exec, owned, text_eq};

verus! {

/// How many items a listing returns when the request names no limit.
pub const DEFAULT_LIST_LIMIT: usize = 100;

/// How many characters of rust-analyzer's diagnostics a generation result keeps.
pub const STDERR_DIGEST_CHARS: usize = 500;

/// The first `n` items of `s` (all of them when there are fewer).
pub open spec fn first_n<T>(s: Seq<T>, n: nat) -> Seq<T> {
    if s.len() <= n {
        s
    } else {
        s.subrange(0, n as int)
    }
}

/// The requested limit, or the default one.
pub open spec fn limit_or_default(limit: Option<usize>) -> nat {
    match limit {
        Some(n) => n as nat,
        None => DEFAULT_LIST_LIMIT as nat,
    }
}

/// An element passes the kind filter when there is none, or when its `Debug` kind name and
/// the requested kind agree once both are normalised.
pub open spec fn kind_filter_passes(e: ElementSummary, kind: Option<Seq<char>>) -> bool {
    match kind {
        None => true,
        Some(k) => normalized_kind_text(kind_debug_text(e.kind)) == normalized_kind_text(k),
    }
}

/// An element passes the path filter when there is none, or when it has a definition span in
/// exactly that document.
pub open spec fn path_filter_passes(e: ElementSummary, path: Option<Seq<char>>) -> bool {
    match path {
        None => true,
        Some(p) => match e.definition_span {
            Some(s) => s.document_path@ == p,
            None => false,
        },
    }
}

/// The text of an optional string slice.
pub open spec fn opt_text(s: Option<&str>) -> Option<Seq<char>> {
    match s {
        Some(t) => Some(t@),
        None => None,
    }
}

/// Whether an element passes both listing filters.
pub open spec fn listing_keeps(kind: Option<Seq<char>>, path: Option<Seq<char>>) -> spec_fn(ElementSummary) -> bool {
    |e: ElementSummary| kind_filter_passes(e, kind) && path_filter_passes(e, path)
}

/// The elements a listing keeps: those passing both filters.
pub open spec fn listed_elements(elements: Seq<ElementSummary>, kind: Option<Seq<char>>, path: Option<Seq<char>>) -> Seq<ElementSummary> {
    elements.filter(listing_keeps(kind, path))
}

/// Whether a reference names the symbol `s`.
pub open spec fn names_symbol(s: Seq<char>) -> spec_fn(SymbolReferenceSummary) -> bool {
    |r: SymbolReferenceSummary| r.referenced_symbol_id@ == s
}

/// The references to the symbol `s`.
pub open spec fn references_to(refs: Seq<SymbolReferenceSummary>, s: Seq<char>) -> Seq<SymbolReferenceSummary> {
    refs.filter(names_symbol(s))
}

/// Whether an element's enclosing symbol is `s`.
pub open spec fn enclosed_by(s: Seq<char>) -> spec_fn(ElementSummary) -> bool {
    |e: ElementSummary| text_of(e.enclosing_symbol) == Some(s)
}

/// The elements whose enclosing symbol is `s`.
pub open spec fn children_of(elements: Seq<ElementSummary>, s: Seq<char>) -> Seq<ElementSummary> {
    elements.filter(enclosed_by(s))
}

/// Appending one item either extends the capped sequence or leaves it, as the cap decides.
proof fn lemma_first_n_push<T>(s: Seq<T>, x: T, n: nat)
    ensures
        first_n(s.push(x), n) == (if s.len() < n {
            first_n(s, n).push(x)
        } else {
            first_n(s, n)
        }),
{
    if s.len() < n {
        assert(first_n(s.push(x), n) =~= s.push(x));
    } else if s.len() == n {
        assert(first_n(s.push(x), n) =~= s);
    } else {
        assert(first_n(s.push(x), n) =~= s.subrange(0, n as int));
    }
}

/// Whether an element passes both listing filters.
fn passes_filters(e: &ElementSummary, kind: Option<&str>, path: Option<&str>) -> (r: bool)
    ensures
        r == (kind_filter_passes(*e, opt_text(kind)) && path_filter_passes(*e, opt_text(path))),
{
    let kind_ok = match kind {
        None => true,
        Some(k) => {
            let own = normalize_kind(e.kind.debug_text().as_str());
            let wanted = normalize_kind(k);
            own == wanted
        },
    };
    if !kind_ok {
        return false;
    }
    match path {
        None => true,
        Some(p) => match &e.definition_span {
            Some(s) => text_eq(s.document_path.as_str(), p),
            None => false,
        },
    }
}

/// Lists the elements of a model that pass the kind and path filters, in model order, at most
/// `limit` of them (100 when no limit is given). The kind filter compares the normalised
/// `Debug` name of the element's kind with the normalised requested kind; the path filter
/// keeps elements defined in exactly that document.
pub fn list_elements<'a>(model: &'a SemanticModel, kind: Option<&str>, path: Option<&str>, limit: Option<usize>) -> (r: Vec<&'a ElementSummary>)
    ensures
        deref_all(r@) == first_n(listed_elements(model.elements@, opt_text(kind), opt_text(path)), limit_or_default(limit)),
{
    let cap: usize = match limit {
        Some(n) => n,
        None => DEFAULT_LIST_LIMIT,
    };
    let ghost p = listing_keeps(opt_text(kind), opt_text(path));
    let mut out: Vec<&'a ElementSummary> = Vec::new();
    let mut i: usize = 0;
    while i < model.elements.len()
        invariant
            i <= model.elements@.len(),
            cap as nat == limit_or_default(limit),
            p == listing_keeps(opt_text(kind), opt_text(path)),
            deref_all(out@) == first_n(model.elements@.subrange(0, i as int).filter(p), cap as nat),
        decreases model.elements@.len() - i,
    {
        let e = &model.elements[i];
        let ghost before = model.elements@.subrange(0, i as int).filter(p);
        let ghost old_out = out@;
        let hit = passes_filters(e, kind, path);
        proof {
            let s = model.elements@.subrange(0, (i + 1) as int);
            assert(s.drop_last() =~= model.elements@.subrange(0, i as int));
            reveal(Seq::filter);
            lemma_first_n_push(before, *e, cap as nat);
        }
        if hit && out.len() < cap {
            out.push(e);
            assert(deref_all(out@) =~= deref_all(old_out).push(*e));
        }
        proof {
            if hit && old_out.len() >= cap {
                lemma_first_n_len(before, cap as nat);
            }
        }
        i = i + 1;
    }
    assert(model.elements@.subrange(0, model.elements@.len() as int) =~= model.elements@);
    out
}

/// A capped sequence is no longer than the cap, and as long as the sequence when under it.
proof fn lemma_first_n_len<T>(s: Seq<T>, n: nat)
    ensures
        first_n(s, n).len() == if s.len() <= n { s.len() } else { n },
{
}

/// The references of a model to the symbol `s`, in model order, at most `cap` of them.
fn references_in<'a>(model: &'a SemanticModel, s: &str, cap: usize) -> (r: Vec<&'a SymbolReferenceSummary>)
    ensures
        deref_all(r@) == first_n(references_to(model.references@, s@), cap as nat),
{
    let ghost p = names_symbol(s@);
    let mut out: Vec<&'a SymbolReferenceSummary> = Vec::new();
    let mut i: usize = 0;
    while i < model.references.len()
        invariant
            i <= model.references@.len(),
            p == names_symbol(s@),
            deref_all(out@) == first_n(model.references@.subrange(0, i as int).filter(p), cap as nat),
        decreases model.references@.len() - i,
    {
        let x = &model.references[i];
        let ghost before = model.references@.subrange(0, i as int).filter(p);
        let ghost old_out = out@;
        let hit = text_eq(x.referenced_symbol_id.as_str(), s);
        proof {
            let t = model.references@.subrange(0, (i + 1) as int);
            assert(t.drop_last() =~= model.references@.subrange(0, i as int));
            reveal(Seq::filter);
            lemma_first_n_push(before, *x, cap as nat);
        }
        if hit && out.len() < cap {
            out.push(x);
            assert(deref_all(out@) =~= deref_all(old_out).push(*x));
        }
        i = i + 1;
    }
    assert(model.references@.subrange(0, model.references@.len() as int) =~= model.references@);
    out
}

/// The elements of a model enclosed by the symbol `s`, in model order, at most `cap` of them.
fn children_in<'a>(model: &'a SemanticModel, s: &str, cap: usize) -> (r: Vec<&'a ElementSummary>)
    ensures
        deref_all(r@) == first_n(children_of(model.elements@, s@), cap as nat),
{
    let ghost p = enclosed_by(s@);
    let mut out: Vec<&'a ElementSummary> = Vec::new();
    let mut i: usize = 0;
    while i < model.elements.len()
        invariant
            i <= model.elements@.len(),
            p == enclosed_by(s@),
            deref_all(out@) == first_n(model.elements@.subrange(0, i as int).filter(p), cap as nat),
        decreases model.elements@.len() - i,
    {
        let e = &model.elements[i];
        let ghost before = model.elements@.subrange(0, i as int).filter(p);
        let ghost old_out = out@;
        let hit = match &e.enclosing_symbol {
            Some(t) => text_eq(t.as_str(), s),
            None => false,
        };
        proof {
            let t = model.elements@.subrange(0, (i + 1) as int);
            assert(t.drop_last() =~= model.elements@.subrange(0, i as int));
            reveal(Seq::filter);
            lemma_first_n_push(before, *e, cap as nat);
        }
        if hit && out.len() < cap {
            out.push(e);
            assert(deref_all(out@) =~= deref_all(old_out).push(*e));
        }
        i = i + 1;
    }
    assert(model.elements@.subrange(0, model.elements@.len() as int) =~= model.elements@);
    out
}

/// The first `cap` items of `v`.
pub(crate) fn take_first<'a, T>(v: Vec<&'a T>, cap: usize) -> (r: Vec<&'a T>)
    ensures
        r@ == first_n(v@, cap as nat),
{
    let mut out: Vec<&'a T> = Vec::new();
    let mut i: usize = 0;
    while i < v.len() && i < cap
        invariant
            i <= v@.len(),
            i <= cap,
            out@ == v@.subrange(0, i as int),
        decreases v@.len() - i,
    {
        out.push(v[i]);
        assert(out@ =~= v@.subrange(0, (i + 1) as int));
        i = i + 1;
    }
    assert(v@.len() <= cap ==> v@.subrange(0, i as int) =~= v@);
    out
}

/// Finds the references to the symbol that `requested` names in its one project (see
/// `resolve_symbol_id`), in model order, at most `limit` of them (100 by default).
pub fn find_references<'a>(cache: &'a ProjectCache, requested: &str, limit: Option<usize>) -> (r: Result<Vec<&'a SymbolReferenceSummary>, McpError>)
    ensures
        ({
            let hits = symbol_hits(cached_models(cache), requested@);
            &&& r is Ok <==> hits.len() == 1
            &&& r matches Ok(v) ==> deref_all(v@) == first_n(references_to(hits[0].0.references@, hits[0].1), limit_or_default(limit))
            &&& r matches Err(e) ==> symbol_error_owed(hits, requested@, e)
        }),
{
    let cap: usize = match limit {
        Some(n) => n,
        None => DEFAULT_LIST_LIMIT,
    };
    match resolve_symbol_id(cache, requested) {
        Ok((model, symbol_id)) => Ok(references_in(model, symbol_id.as_str(), cap)),
        Err(e) => Err(e),
    }
}

/// The children and call-like relations of one symbol.
#[derive(Debug)]
pub struct RelatedSymbols<'a> {
    pub child_symbols: Vec<&'a ElementSummary>,
    pub outgoing_function_like_references: Vec<&'a CallEdge>,
    pub incoming_function_like_references: Vec<&'a CallEdge>,
}

/// Finds, for the symbol that `requested` names in its one project (see
/// `resolve_symbol_id`), the elements it encloses, the call edges inside it and the call
/// edges to it, each in model order and at most `limit` long (100 by default).
pub fn find_related_symbols<'a>(cache: &'a ProjectCache, requested: &str, limit: Option<usize>) -> (r: Result<RelatedSymbols<'a>, McpError>)
    ensures
        ({
            let hits = symbol_hits(cached_models(cache), requested@);
            let n = limit_or_default(limit);
            &&& r is Ok <==> hits.len() == 1
            &&& r matches Ok(rel) ==> {
                &&& deref_all(rel.child_symbols@) == first_n(children_of(hits[0].0.elements@, hits[0].1), n)
                &&& deref_all(rel.outgoing_function_like_references@) == first_n(edges_from(hits[0].0.call_edges@, hits[0].1), n)
                &&& deref_all(rel.incoming_function_like_references@) == first_n(edges_to(hits[0].0.call_edges@, hits[0].1), n)
            }
            &&& r matches Err(e) ==> symbol_error_owed(hits, requested@, e)
        }),
{
    let cap: usize = match limit {
        Some(n) => n,
        None => DEFAULT_LIST_LIMIT,
    };
    match resolve_symbol_id(cache, requested) {
        Ok((model, symbol_id)) => {
            let child_symbols = children_in(model, symbol_id.as_str(), cap);
            let outgoing = model.outgoing_call_edges(symbol_id.as_str());
            let incoming = model.incoming_call_edges(symbol_id.as_str());
            let outgoing_function_like_references = take_first(outgoing, cap);
            let incoming_function_like_references = take_first(incoming, cap);
            proof {
                lemma_deref_first_n(outgoing@, cap as nat);
                lemma_deref_first_n(incoming@, cap as nat);
            }
            Ok(RelatedSymbols { child_symbols, outgoing_function_like_references, incoming_function_like_references })
        },
        Err(e) => Err(e),
    }
}

/// Capping commutes with dereferencing.
proof fn lemma_deref_first_n<T>(s: Seq<&T>, n: nat)
    ensures
        deref_all(first_n(s, n)) == first_n(deref_all(s), n),
{
    assert(deref_all(first_n(s, n)) =~= first_n(deref_all(s), n));
}

/// The spans of all the models, one model after another.
pub open spec fn all_spans(models: Seq<SemanticModel>) -> Seq<SourceSpan> {
    models.map_values(|m: SemanticModel| m.spans@).flatten()
}

/// The first match in a concatenation is the first match of the front part if it has one,
/// else the first match of the back part.
proof fn lemma_first_where_add<T>(a: Seq<T>, b: Seq<T>, p: spec_fn(T) -> bool)
    ensures
        first_where(a + b, p) == (match first_where(a, p) {
            Some(x) => Some(x),
            None => first_where(b, p),
        }),
    decreases a.len(),
{
    if a.len() > 0 {
        assert((a + b)[0] == a[0]);
        assert((a + b).drop_first() =~= a.drop_first() + b);
        lemma_first_where_add(a.drop_first(), b, p);
    } else {
        assert(a + b =~= b);
    }
}

/// Finds the first span with id `span_id`, looking through the cached models in order.
pub fn get_source_span<'a>(cache: &'a ProjectCache, span_id: &str) -> (r: Result<&'a SourceSpan, McpError>)
    ensures
        ({
            let found = first_where(all_spans(cached_models(cache)), |s: SourceSpan| s.id@ == span_id@);
            &&& found matches Some(x) ==> (r matches Ok(s) && *s == x)
            &&& found is None ==> (r matches Err(McpError::MissingSpan { message, span_id: id })
                && message == "requested RefactorRadar source span was not found" && id@ == span_id@)
        }),
{
    let entries = cache.models.entries();
    let ghost models = cached_models(cache);
    let ghost p = |s: SourceSpan| s.id@ == span_id@;
    let ghost groups = models.map_values(|m: SemanticModel| m.spans@);
    let mut i: usize = 0;
    assert(groups.skip(0) =~= groups);
    while i < entries.len()
        invariant
            entries@ == cache.models.entry_seq(),
            models == cached_models(cache),
            groups == models.map_values(|m: SemanticModel| m.spans@),
            p == (|s: SourceSpan| s.id@ == span_id@),
            i <= entries@.len(),
            first_where(groups.flatten(), p) == first_where(groups.skip(i as int).flatten(), p),
        decreases entries@.len() - i,
    {
        let model = &entries[i].1;
        let ghost rest = groups.skip(i as int);
        proof {
            assert(rest[0] == model.spans@);
            assert(rest.drop_first() =~= groups.skip(i + 1));
            lemma_first_where_add(model.spans@, groups.skip(i + 1).flatten(), p);
        }
        match model.span_by_id(span_id) {
            Some(s) => {
                return Ok(s);
            },
            None => {},
        }
        i = i + 1;
    }
    Err(McpError::missing_span(owned(span_id)))
}

/// What a signature query answers for an element.
#[derive(Debug)]
pub struct FunctionSignatureFacts<'a> {
    pub stable_id: String,
    pub symbol_id: String,
    pub definition_span_id: Option<String>,
    pub signature: Option<&'a FunctionSignatureSummary>,
}

/// The signature facts of an element: its ids, the id of its definition span, and its
/// signature summary.
pub fn function_signature_facts<'a>(element: &'a ElementSummary) -> (r: FunctionSignatureFacts<'a>)
    ensures
        r.stable_id@ == element.stable_id@,
        r.symbol_id@ == element.symbol_id@,
        text_of(r.definition_span_id) == (match element.definition_span {
            Some(s) => Some(s.id@),
            None => None,
        }),
        opt_deref(r.signature) == element.signature,
{
    let definition_span_id = match &element.definition_span {
        Some(s) => Some(owned(s.id.as_str())),
        None => None,
    };
    let signature = match &element.signature {
        Some(sig) => Some(sig),
        None => None,
    };
    FunctionSignatureFacts {
        stable_id: owned(element.stable_id.as_str()),
        symbol_id: owned(element.symbol_id.as_str()),
        definition_span_id,
        signature,
    }
}

/// Finds the element that `requested` names (see `resolve_element`) and answers its
/// signature facts.
pub fn get_function_signature<'a>(cache: &'a ProjectCache, requested: &str) -> (r: Result<FunctionSignatureFacts<'a>, McpError>)
    ensures
        ({
            let hits = element_hits(cached_models(cache), requested@);
            &&& r is Ok <==> hits.len() == 1
            &&& r matches Ok(f) ==> f.symbol_id@ == hits[0].1.symbol_id@ && f.stable_id@ == hits[0].1.stable_id@
                && opt_deref(f.signature) == hits[0].1.signature
                && text_of(f.definition_span_id) == (match hits[0].1.definition_span {
                    Some(s) => Some(s.id@),
                    None => None,
                })
            &&& r matches Err(e) ==> element_error_owed(hits, requested@, e)
        }),
{
    match resolve_element(cache, requested) {
        Ok((_model, element)) => Ok(function_signature_facts(element)),
        Err(e) => Err(e),
    }
}

/// Reads the requested format name: `scip` is the binary protobuf, `json` the protobuf JSON
/// mapping, no name leaves the choice to the loader, and any other name is unsupported.
pub fn parse_format_param(name: Option<&str>) -> (r: Result<Option<Format>, McpError>)
    ensures
        name is None ==> (r matches Ok(None)),
        name matches Some(f) ==> (f@ == "scip"@ ==> (r matches Ok(Some(Format::Binary)))),
        name matches Some(f) ==> (f@ == "json"@ ==> (r matches Ok(Some(Format::Json)))),
        name matches Some(f) ==> (f@ != "scip"@ && f@ != "json"@ ==> (r matches Err(McpError::UnsupportedFormat { message, format: g })
            && message == "unsupported SCIP format" && g@ == f@)),
{
    proof {
        reveal_strlit("scip");
        reveal_strlit("json");
        assert("scip"@[0] != "json"@[0]);
        assert("scip"@ != "json"@);
    }
    match name {
        None => Ok(None),
        Some(f) => {
            if text_eq(f, "scip") {
                Ok(Some(Format::Binary))
            } else if text_eq(f, "json") {
                Ok(Some(Format::Json))
            } else {
                Err(McpError::unsupported_format(owned(f)))
            }
        },
    }
}

/// What loading a SCIP file into the cache answers.
#[derive(Clone, Debug, PartialEq, Eq)]
pub struct ScipProjectResult {
    pub project_id: String,
    pub document_count: usize,
    pub symbol_count: usize,
    pub occurrence_count: usize,
}

/// The load answer for a model: its project id and its document, element and occurrence
/// counts.
pub fn scip_project_result(model: &SemanticModel) -> (r: ScipProjectResult)
    requires
        total_occurrences(model.files@) <= usize::MAX,
    ensures
        r.project_id@ == model.project.project_id@,
        r.document_count == model.files@.len(),
        r.symbol_count == model.elements@.len(),
        r.occurrence_count == total_occurrences(model.files@),
{
    ScipProjectResult {
        project_id: model.project.project_id.clone(),
        document_count: model.files.len(),
        symbol_count: model.elements.len(),
        occurrence_count: occurrence_count(model),
    }
}

/// What scanning a project (generating and loading its index) answers.
#[derive(Clone, Debug, PartialEq, Eq)]
pub struct ProjectScanResult {
    pub project_id: String,
    pub output_path: String,
    pub document_count: usize,
    pub symbol_count: usize,
    pub occurrence_count: usize,
}

/// The scan answer for a model loaded from `output_path`.
pub fn project_scan_result(model: &SemanticModel, output_path: String) -> (r: ProjectScanResult)
    requires
        total_occurrences(model.files@) <= usize::MAX,
    ensures
        r.project_id@ == model.project.project_id@,
        r.output_path == output_path,
        r.document_count == model.files@.len(),
        r.symbol_count == model.elements@.len(),
        r.occurrence_count == total_occurrences(model.files@),
{
    ProjectScanResult {
        project_id: model.project.project_id.clone(),
        output_path,
        document_count: model.files.len(),
        symbol_count: model.elements.len(),
        occurrence_count: occurrence_count(model),
    }
}

/// What generating a rust-analyzer SCIP file answers.
#[derive(Clone, Debug, PartialEq, Eq)]
pub struct RustScipGenerateResult {
    pub path: String,
    pub stderr_digest: String,
    pub producer_name: Option<String>,
    pub producer_version: Option<String>,
    pub file_size: u64,
}

/// The generation answer: the output path, the first 500 characters of rust-analyzer's
/// diagnostics, the producer named by the generated index when it could be loaded (none
/// otherwise), and the file's size.
pub fn rust_scip_generate_result(path: String, stderr: &str, loaded: Option<&SemanticModel>, file_size: u64) -> (r: RustScipGenerateResult)
    ensures
        r.path == path,
        r.stderr_digest@ == char_prefix(stderr@, STDERR_DIGEST_CHARS as nat),
        r.file_size == file_size,
        match loaded {
            Some(m) => r.producer_name == m.project.producer_name && r.producer_version == m.project.producer_version,
            None => r.producer_name is None && r.producer_version is None,
        },
{
    let (producer_name, producer_version) = match loaded {
        Some(m) => (clone_opt(&m.project.producer_name), clone_opt(&m.project.producer_version)),
        None => (None, None),
    };
    RustScipGenerateResult {
        path,
        stderr_digest: char_prefix_exec(stderr, STDERR_DIGEST_CHARS),
        producer_name,
        producer_version,
        file_size,
    }
}

/// A copy of an optional string.
fn clone_opt(s: &Option<String>) -> (r: Option<String>)
    ensures
        r == *s,
{
    match s {
        Some(t) => Some(t.clone()),
        None => None,
    }
}

} // verus!
