//! Reports built from a semantic model: the project summary and the 5W brief of one element.
use vstd::prelude::*;

use crate::element_kind::kind_debug_text;
use crate::hotspots::{are_hotspot_lines, hotspot_lines};
use crate::queries::{children_of, first_n, take_first};
use crate::semantic_model::{deref_all, edges_from, edges_to, element_answers_to, first_where, SemanticModel};
use crate::summaries::{CallEdge, ElementSummary, FiveW, FunctionParameterSummary, FunctionSignatureSummary, ProjectReport, SourceSpan, SymbolReferenceSummary, TypeReference};
use crate::text::{contains_text, contains_text_exec, decimal_text, ends_with_text, has_prefix, has_suffix, join_texts, owned, push_decimal, push_joined, push_text, starts_with_text, text_eq, texts};

verus! {

/// How many hotspot files a project summary lists.
pub const PROJECT_HOTSPOT_LIMIT: usize = 5;

/// The SCIP symbol role bit that marks an occurrence inside test code.
pub const TEST_ROLE: i32 = 0x20;

/// A failure to build a report.
#[derive(Debug)]
pub enum ReportError {
    ElementNotFound { message: &'static str, symbol_id: String },
}

impl ReportError {
    /// No element of the model answers to `symbol_id`.
    pub fn element_not_found(symbol_id: String) -> (r: Self)
        ensures
            r == (ReportError::ElementNotFound {
                message: "element was not found in the projected semantic model",
                symbol_id,
            }),
    {
        ReportError::ElementNotFound { message: "element was not found in the projected semantic model", symbol_id }
    }

    /// The error's message.
    pub fn message(&self) -> (r: &'static str)
        ensures
            r == (match self {
                ReportError::ElementNotFound { message, .. } => *message,
            }),
    {
        match self {
            ReportError::ElementNotFound { message, .. } => message,
        }
    }
}

/// The document paths of the references.
pub open spec fn reference_paths(refs: Seq<SymbolReferenceSummary>) -> Seq<Seq<char>> {
    refs.map_values(|r: SymbolReferenceSummary| r.document_path@)
}

/// Copies of the document paths of the references.
fn paths_of(refs: &Vec<&SymbolReferenceSummary>) -> (r: Vec<String>)
    ensures
        texts(r@) == reference_paths(deref_all(refs@)),
{
    let mut out: Vec<String> = Vec::new();
    let mut i: usize = 0;
    while i < refs.len()
        invariant
            i <= refs@.len(),
            out@.len() == i,
            texts(out@) == reference_paths(deref_all(refs@)).subrange(0, i as int),
        decreases refs@.len() - i,
    {
        out.push(refs[i].document_path.clone());
        assert(texts(out@) =~= reference_paths(deref_all(refs@)).subrange(0, (i + 1) as int));
        i = i + 1;
    }
    assert(reference_paths(deref_all(refs@)).subrange(0, refs@.len() as int) =~= reference_paths(deref_all(refs@)));
    out
}

/// The model's references, in order.
fn all_references(model: &SemanticModel) -> (r: Vec<&SymbolReferenceSummary>)
    ensures
        deref_all(r@) == model.references@,
{
    let mut out: Vec<&SymbolReferenceSummary> = Vec::new();
    let mut i: usize = 0;
    while i < model.references.len()
        invariant
            i <= model.references@.len(),
            out@.len() == i,
            deref_all(out@) == model.references@.subrange(0, i as int),
        decreases model.references@.len() - i,
    {
        out.push(&model.references[i]);
        assert(deref_all(out@) =~= model.references@.subrange(0, (i + 1) as int));
        i = i + 1;
    }
    assert(model.references@.subrange(0, model.references@.len() as int) =~= model.references@);
    out
}

/// Summarises a project: its id, its document, element and reference counts, and the five
/// documents holding the most references, as `{path} ({count})`.
pub fn build_project_summary(model: &SemanticModel) -> (r: ProjectReport)
    ensures
        r.project_id@ == model.project.project_id@,
        r.document_count == model.files@.len(),
        r.element_count == model.elements@.len(),
        r.reference_count == model.references@.len(),
        are_hotspot_lines(reference_paths(model.references@), PROJECT_HOTSPOT_LIMIT as nat, texts(r.hotspot_files@)),
{
    let refs = all_references(model);
    let paths = paths_of(&refs);
    ProjectReport {
        project_id: model.project.project_id.clone(),
        document_count: model.files.len(),
        element_count: model.elements.len(),
        reference_count: model.references.len(),
        hotspot_files: hotspot_lines(&paths, PROJECT_HOTSPOT_LIMIT),
    }
}

// ---------------------------------------------------------------------------------------------
// The element brief

/// One piece of evidence: what it shows and where.
#[derive(Debug)]
pub struct Evidence {
    pub description: String,
    pub source_spans: Vec<SourceSpan>,
}

/// The 5W brief of one element, with its evidence and what is confirmed, inferred and unknown.
#[derive(Debug)]
pub struct ElementBrief<'a> {
    pub element: &'a ElementSummary,
    pub five_w: FiveW,
    pub evidence: Vec<Evidence>,
    pub confirmed: Vec<String>,
    pub inferred: Vec<String>,
    pub unknown: Vec<String>,
}

/// A reference refers to the element when it names any of the element's ids.
pub open spec fn refers_to(e: ElementSummary, r: SymbolReferenceSummary) -> bool {
    element_answers_to(e, r.referenced_symbol_id@)
}

/// The model's references to the element, in model order.
pub open spec fn element_references(m: SemanticModel, e: ElementSummary) -> Seq<SymbolReferenceSummary> {
    m.references@.filter(|r: SymbolReferenceSummary| refers_to(e, r))
}

/// What the evidence of a reference says.
pub open spec fn evidence_text(r: SymbolReferenceSummary) -> Seq<char> {
    "reference in "@ + r.document_path@
}

/// `" (SCIP symbol {s})"` when there is a symbol, nothing otherwise.
pub open spec fn symbol_note(s: Option<String>) -> Seq<char> {
    match s {
        Some(t) => " (SCIP symbol "@ + t@ + ")"@,
        None => Seq::empty(),
    }
}

/// The line of a parameter: its name, its type when known, and its SCIP symbol when known.
pub open spec fn parameter_line(p: FunctionParameterSummary) -> Seq<char> {
    "parameter "@ + p.name@ + (match p.type_reference {
        Some(t) => ": "@ + t.display_text@,
        None => Seq::empty(),
    }) + symbol_note(p.scip_symbol)
}

/// The line of a return type: its text and its SCIP symbol when known.
pub open spec fn return_line(t: TypeReference) -> Seq<char> {
    "returns "@ + t.display_text@ + symbol_note(t.scip_symbol)
}

/// What the signature contributes to "what": its text, its parameters and its return type.
pub open spec fn signature_lines(sig: Option<FunctionSignatureSummary>) -> Seq<Seq<char>> {
    match sig {
        None => Seq::empty(),
        Some(s) => (match s.signature_text {
            Some(t) => seq!["signature: "@ + t@],
            None => Seq::empty(),
        }) + s.parameters@.map_values(|p: FunctionParameterSummary| parameter_line(p)) + (match s.return_type {
            Some(t) => seq![return_line(t)],
            None => Seq::empty(),
        }),
    }
}

/// "What" of an element: its kind and name, its signature, and its members.
pub open spec fn what_lines(m: SemanticModel, e: ElementSummary) -> Seq<Seq<char>> {
    seq![kind_debug_text(e.kind) + " "@ + e.display_name@] + signature_lines(e.signature)
        + children_of(m.elements@, e.symbol_id@).map_values(|c: ElementSummary| "member "@ + c.display_name@)
}

/// "Who" of an element: its package.
pub open spec fn who_lines(e: ElementSummary) -> Seq<Seq<char>> {
    match e.package {
        Some(p) => seq!["package "@ + p@],
        None => Seq::empty(),
    }
}

/// Where the element is defined.
pub open spec fn definition_lines(e: ElementSummary) -> Seq<Seq<char>> {
    match e.definition_span {
        Some(s) => seq!["defined in "@ + s.document_path@ + " at line "@ + decimal_text(s.start_line as nat)],
        None => Seq::empty(),
    }
}

/// The hotspot entry: nothing without references, else the top files joined by commas.
pub open spec fn hotspot_entry(hot: Seq<Seq<char>>) -> Seq<Seq<char>> {
    if hot.len() == 0 {
        Seq::empty()
    } else {
        seq!["top reference files: "@ + join_texts(hot, ", "@)]
    }
}

/// "When" of an element: the index holds no timing.
pub open spec fn when_lines() -> Seq<Seq<char>> {
    seq!["runtime timing is not available from SCIP"@]
}

/// The line of an outgoing call edge.
pub open spec fn outgoing_line(edge: CallEdge) -> Seq<char> {
    "SCIP-derived outgoing function_like_reference to "@ + edge.referenced_symbol_id@
}

/// The line of an incoming call edge.
pub open spec fn incoming_line(edge: CallEdge) -> Seq<char> {
    "SCIP-derived incoming function_like_reference from "@ + edge.enclosing_symbol_id@
}

/// A reference counts as a test reference when SCIP marks it as test code, or when its
/// document lies under a `tests` directory or is named `*_test.rs` or `*_tests.rs`.
pub open spec fn is_test_reference(r: SymbolReferenceSummary) -> bool {
    ||| (r.symbol_roles & TEST_ROLE) != 0
    ||| has_prefix(r.document_path@, "tests/"@)
    ||| contains_text(r.document_path@, "/tests/"@)
    ||| has_suffix(r.document_path@, "_test.rs"@)
    ||| has_suffix(r.document_path@, "_tests.rs"@)
}

/// Whether a reference counts as a test reference, as a predicate.
pub open spec fn test_reference_filter() -> spec_fn(SymbolReferenceSummary) -> bool {
    |r: SymbolReferenceSummary| is_test_reference(r)
}

/// The line of a test reference, as a function.
pub open spec fn test_line_of() -> spec_fn(SymbolReferenceSummary) -> Seq<char> {
    |r: SymbolReferenceSummary| test_line(r)
}

/// The line of a test reference.
pub open spec fn test_line(r: SymbolReferenceSummary) -> Seq<char> {
    "test reference at "@ + r.document_path@
}

/// The call-edge lines of an element: outgoing then incoming, each capped at `limit`.
pub open spec fn edge_lines(m: SemanticModel, e: ElementSummary, limit: nat) -> Seq<Seq<char>> {
    first_n(edges_from(m.call_edges@, e.symbol_id@), limit).map_values(|c: CallEdge| outgoing_line(c))
        + first_n(edges_to(m.call_edges@, e.symbol_id@), limit).map_values(|c: CallEdge| incoming_line(c))
}

/// "How" of an element: its call edges and the test references among the shown references.
pub open spec fn how_lines(m: SemanticModel, e: ElementSummary, limit: nat) -> Seq<Seq<char>> {
    edge_lines(m, e, limit) + first_n(element_references(m, e), limit).filter(
        test_reference_filter(),
    ).map_values(test_line_of())
}

/// The inferred use of an element with `n` references.
pub open spec fn use_line(n: nat) -> Seq<char> {
    "referenced "@ + decimal_text(n) + " time(s) in the index, so other code likely depends on it"@
}

/// What is inferred: the element's likely use, when inference is on and it has references.
pub open spec fn inferred_lines(m: SemanticModel, e: ElementSummary, include_inferred: bool) -> Seq<Seq<char>> {
    if include_inferred && element_references(m, e).len() > 0 {
        seq![use_line(element_references(m, e).len())]
    } else {
        Seq::empty()
    }
}

/// What the signature confirms or leaves unknown.
pub open spec fn signature_notes(sig: Option<FunctionSignatureSummary>, confirmed: bool) -> Seq<Seq<char>> {
    match sig {
        Some(s) => if confirmed {
            texts(s.confirmed@)
        } else {
            texts(s.unknown@)
        },
        None => Seq::empty(),
    }
}

/// What the index cannot tell about any element.
pub open spec fn fixed_unknowns() -> Seq<Seq<char>> {
    seq![
        "SCIP occurrence alone does not prove runtime call behavior"@,
        "intended public API status is unknown"@,
        "git recency is not available from SCIP"@,
    ]
}

/// `b` is the brief of element `e` of model `m`.
pub open spec fn is_element_brief(m: SemanticModel, e: ElementSummary, include_inferred: bool, limit: nat, b: ElementBrief) -> bool {
    let refs = element_references(m, e);
    let shown = first_n(refs, limit);
    &&& *b.element == e
    &&& b.evidence@.len() == shown.len()
    &&& forall|i: int| 0 <= i < shown.len() ==> (#[trigger] b.evidence@[i]).description@ == evidence_text(shown[i])
        && b.evidence@[i].source_spans@ == seq![shown[i].source_span]
    &&& texts(b.five_w.who@) == who_lines(e)
    &&& texts(b.five_w.what@) == what_lines(m, e)
    &&& exists|hot: Seq<Seq<char>>| are_hotspot_lines(reference_paths(refs), limit, hot)
        && texts(b.five_w.where_@) == definition_lines(e) + hotspot_entry(hot)
    &&& texts(b.five_w.when@) == when_lines()
    &&& texts(b.five_w.why@) == inferred_lines(m, e, include_inferred)
    &&& texts(b.five_w.how@) == how_lines(m, e, limit)
    &&& texts(b.inferred@) == inferred_lines(m, e, include_inferred)
    &&& texts(b.confirmed@) == signature_notes(e.signature, true) + edge_lines(m, e, limit)
    &&& texts(b.unknown@) == signature_notes(e.signature, false) + fixed_unknowns()
}

/// Appends copies of `items` to `out`.
fn append_all(out: &mut Vec<String>, items: &Vec<String>)
    ensures
        texts(final(out)@) == texts(old(out)@) + texts(items@),
{
    let ghost start = texts(out@);
    let mut i: usize = 0;
    while i < items.len()
        invariant
            i <= items@.len(),
            out@.len() == start.len() + i,
            texts(out@) == start + texts(items@).subrange(0, i as int),
        decreases items@.len() - i,
    {
        let ghost before = out@;
        let c = items[i].clone();
        assert(c@ == items@[i as int]@);
        out.push(c);
        assert(out@ == before.push(c));
        assert(texts(out@) =~= texts(before).push(c@));
        assert(texts(items@).subrange(0, (i + 1) as int) =~= texts(items@).subrange(0, i as int).push(c@));
        assert(texts(out@) =~= start + texts(items@).subrange(0, (i + 1) as int));
        i = i + 1;
    }
    assert(texts(items@).subrange(0, items@.len() as int) =~= texts(items@));
}

/// Appends one line to `out`.
fn push_line(out: &mut Vec<String>, line: String)
    ensures
        texts(final(out)@) == texts(old(out)@).push(line@),
{
    out.push(line);
    assert(texts(out@) =~= texts(old(out)@).push(line@));
}

/// The model's references to the element, in model order.
fn element_references_exec<'a>(model: &'a SemanticModel, e: &ElementSummary) -> (r: Vec<&'a SymbolReferenceSummary>)
    ensures
        deref_all(r@) == element_references(*model, *e),
{
    let ghost p = |r: SymbolReferenceSummary| refers_to(*e, r);
    let mut out: Vec<&'a SymbolReferenceSummary> = Vec::new();
    let mut i: usize = 0;
    while i < model.references.len()
        invariant
            i <= model.references@.len(),
            p == (|r: SymbolReferenceSummary| refers_to(*e, r)),
            deref_all(out@) == model.references@.subrange(0, i as int).filter(p),
        decreases model.references@.len() - i,
    {
        let x = &model.references[i];
        let id = x.referenced_symbol_id.as_str();
        let hit = text_eq(e.stable_id.as_str(), id) || text_eq(e.symbol_id.as_str(), id) || text_eq(e.scip_symbol.as_str(), id);
        let ghost old_out = out@;
        if hit {
            out.push(x);
        }
        proof {
            let t = model.references@.subrange(0, (i + 1) as int);
            assert(t.drop_last() =~= model.references@.subrange(0, i as int));
            reveal(Seq::filter);
            if hit {
                assert(deref_all(out@) =~= deref_all(old_out).push(*x));
            } else {
                assert(deref_all(out@) =~= deref_all(old_out));
            }
        }
        i = i + 1;
    }
    assert(model.references@.subrange(0, model.references@.len() as int) =~= model.references@);
    out
}

/// One piece of evidence per shown reference.
fn evidence_of(shown: &Vec<&SymbolReferenceSummary>) -> (r: Vec<Evidence>)
    ensures
        r@.len() == shown@.len(),
        forall|i: int| 0 <= i < shown@.len() ==> (#[trigger] r@[i]).description@ == evidence_text(*shown@[i])
            && r@[i].source_spans@ == seq![shown@[i].source_span],
{
    let mut out: Vec<Evidence> = Vec::new();
    let mut i: usize = 0;
    while i < shown.len()
        invariant
            i <= shown@.len(),
            out@.len() == i,
            forall|j: int| 0 <= j < i ==> (#[trigger] out@[j]).description@ == evidence_text(*shown@[j])
                && out@[j].source_spans@ == seq![shown@[j].source_span],
        decreases shown@.len() - i,
    {
        let x = shown[i];
        let mut description = String::new();
        push_text(&mut description, "reference in ");
        push_text(&mut description, x.document_path.as_str());
        let mut source_spans: Vec<SourceSpan> = Vec::new();
        source_spans.push(x.source_span.copy());
        assert(source_spans@ =~= seq![x.source_span]);
        out.push(Evidence { description, source_spans });
        i = i + 1;
    }
    out
}

/// Appends `" (SCIP symbol {s})"` when there is a symbol.
fn push_symbol_note(line: &mut String, s: &Option<String>)
    ensures
        final(line)@ == old(line)@ + symbol_note(*s),
{
    match s {
        Some(t) => {
            push_text(line, " (SCIP symbol ");
            push_text(line, t.as_str());
            push_text(line, ")");
        },
        None => {
            assert(old(line)@ + symbol_note(*s) =~= old(line)@);
        },
    }
}

/// The lines the signature contributes to "what".
fn signature_lines_exec(sig: &Option<FunctionSignatureSummary>) -> (r: Vec<String>)
    ensures
        texts(r@) == signature_lines(*sig),
{
    let mut out: Vec<String> = Vec::new();
    match sig {
        None => {
            assert(texts(out@) =~= signature_lines(*sig));
        },
        Some(s) => {
            match &s.signature_text {
                Some(t) => {
                    let mut line = String::new();
                    push_text(&mut line, "signature: ");
                    push_text(&mut line, t.as_str());
                    push_line(&mut out, line);
                },
                None => {},
            }
            let ghost head = texts(out@);
            let ghost params = s.parameters@.map_values(|p: FunctionParameterSummary| parameter_line(p));
            let mut i: usize = 0;
            while i < s.parameters.len()
                invariant
                    i <= s.parameters@.len(),
                    params == s.parameters@.map_values(|p: FunctionParameterSummary| parameter_line(p)),
                    texts(out@) == head + params.subrange(0, i as int),
                decreases s.parameters@.len() - i,
            {
                let p = &s.parameters[i];
                let mut line = String::new();
                push_text(&mut line, "parameter ");
                push_text(&mut line, p.name.as_str());
                match &p.type_reference {
                    Some(t) => {
                        push_text(&mut line, ": ");
                        push_text(&mut line, t.display_text.as_str());
                    },
                    None => {},
                }
                push_symbol_note(&mut line, &p.scip_symbol);
                assert(line@ =~= parameter_line(*p));
                push_line(&mut out, line);
                assert(texts(out@) =~= head + params.subrange(0, (i + 1) as int));
                i = i + 1;
            }
            assert(params.subrange(0, s.parameters@.len() as int) =~= params);
            match &s.return_type {
                Some(t) => {
                    let mut line = String::new();
                    push_text(&mut line, "returns ");
                    push_text(&mut line, t.display_text.as_str());
                    push_symbol_note(&mut line, &t.scip_symbol);
                    push_line(&mut out, line);
                },
                None => {},
            }
            assert(texts(out@) =~= signature_lines(*sig));
        },
    }
    out
}

/// "What" of an element.
fn what_exec(model: &SemanticModel, e: &ElementSummary) -> (r: Vec<String>)
    ensures
        texts(r@) == what_lines(*model, *e),
{
    let mut out: Vec<String> = Vec::new();
    let mut first = e.kind.debug_text();
    push_text(&mut first, " ");
    push_text(&mut first, e.display_name.as_str());
    push_line(&mut out, first);
    let sig = signature_lines_exec(&e.signature);
    append_all(&mut out, &sig);
    let ghost head = texts(out@);
    let ghost p = crate::queries::enclosed_by(e.symbol_id@);
    let ghost f = |c: ElementSummary| "member "@ + c.display_name@;
    let mut i: usize = 0;
    while i < model.elements.len()
        invariant
            i <= model.elements@.len(),
            p == crate::queries::enclosed_by(e.symbol_id@),
            f == (|c: ElementSummary| "member "@ + c.display_name@),
            texts(out@) == head + model.elements@.subrange(0, i as int).filter(p).map_values(f),
        decreases model.elements@.len() - i,
    {
        let c = &model.elements[i];
        let hit = match &c.enclosing_symbol {
            Some(t) => text_eq(t.as_str(), e.symbol_id.as_str()),
            None => false,
        };
        let ghost before = model.elements@.subrange(0, i as int).filter(p);
        let ghost old_out = texts(out@);
        if hit {
            let mut line = String::new();
            push_text(&mut line, "member ");
            push_text(&mut line, c.display_name.as_str());
            push_line(&mut out, line);
        }
        proof {
            let t = model.elements@.subrange(0, (i + 1) as int);
            assert(t.drop_last() =~= model.elements@.subrange(0, i as int));
            reveal(Seq::filter);
            if hit {
                assert(t.filter(p) == before.push(*c));
                assert(before.push(*c).map_values(f) =~= before.map_values(f).push(f(*c)));
            } else {
                assert(t.filter(p) == before);
            }
        }
        i = i + 1;
    }
    assert(model.elements@.subrange(0, model.elements@.len() as int) =~= model.elements@);
    assert(texts(out@) =~= what_lines(*model, *e));
    out
}

/// "Who" of an element.
fn who_exec(e: &ElementSummary) -> (r: Vec<String>)
    ensures
        texts(r@) == who_lines(*e),
{
    let mut out: Vec<String> = Vec::new();
    match &e.package {
        Some(p) => {
            let mut line = String::new();
            push_text(&mut line, "package ");
            push_text(&mut line, p.as_str());
            push_line(&mut out, line);
        },
        None => {},
    }
    assert(texts(out@) =~= who_lines(*e));
    out
}

/// "Where" of an element: its definition and the documents referencing it most.
fn where_exec(e: &ElementSummary, paths: &Vec<String>, limit: usize) -> (r: Vec<String>)
    ensures
        exists|hot: Seq<Seq<char>>| are_hotspot_lines(texts(paths@), limit as nat, hot)
            && texts(r@) == definition_lines(*e) + hotspot_entry(hot),
{
    let mut out: Vec<String> = Vec::new();
    match &e.definition_span {
        Some(s) => {
            let mut line = String::new();
            push_text(&mut line, "defined in ");
            push_text(&mut line, s.document_path.as_str());
            push_text(&mut line, " at line ");
            push_decimal(&mut line, s.start_line as u64);
            push_line(&mut out, line);
        },
        None => {},
    }
    assert(texts(out@) =~= definition_lines(*e));
    let hot = hotspot_lines(paths, limit);
    if hot.len() > 0 {
        let mut line = String::new();
        push_text(&mut line, "top reference files: ");
        push_joined(&mut line, &hot, ", ");
        push_line(&mut out, line);
    }
    assert(texts(out@) =~= definition_lines(*e) + hotspot_entry(texts(hot@)));
    out
}

/// The call-edge lines of an element.
fn edge_lines_exec(model: &SemanticModel, e: &ElementSummary, limit: usize) -> (r: Vec<String>)
    ensures
        texts(r@) == edge_lines(*model, *e, limit as nat),
{
    let outgoing = take_first(model.outgoing_call_edges(e.symbol_id.as_str()), limit);
    let incoming = take_first(model.incoming_call_edges(e.symbol_id.as_str()), limit);
    let ghost outs = first_n(edges_from(model.call_edges@, e.symbol_id@), limit as nat);
    let ghost ins = first_n(edges_to(model.call_edges@, e.symbol_id@), limit as nat);
    assert(deref_all(outgoing@) =~= outs);
    assert(deref_all(incoming@) =~= ins);
    let mut out: Vec<String> = Vec::new();
    let mut i: usize = 0;
    while i < outgoing.len()
        invariant
            i <= outgoing@.len(),
            deref_all(outgoing@) == outs,
            texts(out@) == outs.subrange(0, i as int).map_values(|c: CallEdge| outgoing_line(c)),
        decreases outgoing@.len() - i,
    {
        let c = outgoing[i];
        let mut line = String::new();
        push_text(&mut line, "SCIP-derived outgoing function_like_reference to ");
        push_text(&mut line, c.referenced_symbol_id.as_str());
        assert(outs[i as int] == *c);
        push_line(&mut out, line);
        assert(texts(out@) =~= outs.subrange(0, (i + 1) as int).map_values(|c: CallEdge| outgoing_line(c)));
        i = i + 1;
    }
    assert(outs.subrange(0, outs.len() as int) =~= outs);
    let ghost head = texts(out@);
    let mut i: usize = 0;
    while i < incoming.len()
        invariant
            i <= incoming@.len(),
            deref_all(incoming@) == ins,
            texts(out@) == head + ins.subrange(0, i as int).map_values(|c: CallEdge| incoming_line(c)),
        decreases incoming@.len() - i,
    {
        let c = incoming[i];
        let mut line = String::new();
        push_text(&mut line, "SCIP-derived incoming function_like_reference from ");
        push_text(&mut line, c.enclosing_symbol_id.as_str());
        assert(ins[i as int] == *c);
        push_line(&mut out, line);
        assert(texts(out@) =~= head + ins.subrange(0, (i + 1) as int).map_values(|c: CallEdge| incoming_line(c)));
        i = i + 1;
    }
    assert(ins.subrange(0, ins.len() as int) =~= ins);
    out
}

/// Whether a reference is a test reference.
fn is_test_reference_exec(r: &SymbolReferenceSummary) -> (b: bool)
    ensures
        b == is_test_reference(*r),
{
    let path = r.document_path.as_str();
    (r.symbol_roles & TEST_ROLE) != 0 || starts_with_text(path, "tests/") || contains_text_exec(path, "/tests/")
        || ends_with_text(path, "_test.rs") || ends_with_text(path, "_tests.rs")
}

/// "How" of an element.
fn how_exec(model: &SemanticModel, e: &ElementSummary, shown: &Vec<&SymbolReferenceSummary>, limit: usize) -> (r: Vec<String>)
    requires
        deref_all(shown@) == first_n(element_references(*model, *e), limit as nat),
    ensures
        texts(r@) == how_lines(*model, *e, limit as nat),
{
    let mut out = edge_lines_exec(model, e, limit);
    let ghost head = texts(out@);
    let ghost s = deref_all(shown@);
    let ghost p = test_reference_filter();
    let ghost f = test_line_of();
    let mut i: usize = 0;
    while i < shown.len()
        invariant
            i <= shown@.len(),
            s == deref_all(shown@),
            p == test_reference_filter(),
            f == test_line_of(),
            texts(out@) == head + s.subrange(0, i as int).filter(p).map_values(f),
        decreases shown@.len() - i,
    {
        let x = shown[i];
        let ghost before = s.subrange(0, i as int).filter(p);
        let hit = is_test_reference_exec(x);
        if hit {
            let mut line = String::new();
            push_text(&mut line, "test reference at ");
            push_text(&mut line, x.document_path.as_str());
            push_line(&mut out, line);
        }
        proof {
            let t = s.subrange(0, (i + 1) as int);
            assert(t.drop_last() =~= s.subrange(0, i as int));
            assert(t.last() == *x);
            reveal(Seq::filter);
            if hit {
                assert(before.push(*x).map_values(f) =~= before.map_values(f).push(f(*x)));
            }
        }
        i = i + 1;
    }
    assert(s.subrange(0, s.len() as int) =~= s);
    out
}

/// The inferred lines of an element with `count` references.
fn inferred_exec(count: usize, include_inferred: bool) -> (r: Vec<String>)
    ensures
        texts(r@) == (if include_inferred && count > 0 {
            seq![use_line(count as nat)]
        } else {
            Seq::<Seq<char>>::empty()
        }),
{
    let mut out: Vec<String> = Vec::new();
    if include_inferred && count > 0 {
        let mut line = String::new();
        push_text(&mut line, "referenced ");
        push_decimal(&mut line, count as u64);
        push_text(&mut line, " time(s) in the index, so other code likely depends on it");
        push_line(&mut out, line);
    }
    assert(texts(out@) =~= (if include_inferred && count > 0 {
        seq![use_line(count as nat)]
    } else {
        Seq::<Seq<char>>::empty()
    }));
    out
}

/// The signature's confirmed or unknown notes.
fn signature_notes_exec(sig: &Option<FunctionSignatureSummary>, confirmed: bool) -> (r: Vec<String>)
    ensures
        texts(r@) == signature_notes(*sig, confirmed),
{
    let mut out: Vec<String> = Vec::new();
    match sig {
        Some(s) => {
            if confirmed {
                append_all(&mut out, &s.confirmed);
            } else {
                append_all(&mut out, &s.unknown);
            }
        },
        None => {},
    }
    assert(texts(out@) =~= signature_notes(*sig, confirmed));
    out
}

/// Builds the 5W brief of the element that `symbol_id` names (by stable id, symbol id or
/// SCIP symbol). The references to the element (by any of its ids) are its evidence, capped
/// at `reference_limit`, which also caps the call edges and the hotspot files; inferred
/// statements appear only when `include_inferred` is set.
pub fn build_element_brief<'a>(model: &'a SemanticModel, symbol_id: &str, include_inferred: bool, reference_limit: usize) -> (r: Result<ElementBrief<'a>, ReportError>)
    ensures
        match first_where(model.elements@, |e: ElementSummary| element_answers_to(e, symbol_id@)) {
            None => r matches Err(ReportError::ElementNotFound { message, symbol_id: s })
                && message == "element was not found in the projected semantic model" && s@ == symbol_id@,
            Some(e) => r matches Ok(b) && is_element_brief(*model, e, include_inferred, reference_limit as nat, b),
        },
{
    let element = match model.element_by_id(symbol_id) {
        Some(e) => e,
        None => {
            return Err(ReportError::element_not_found(owned(symbol_id)));
        },
    };
    let refs = element_references_exec(model, element);
    let paths = paths_of(&refs);
    let count = refs.len();
    let shown = take_first(refs, reference_limit);
    proof {
        assert(deref_all(shown@) =~= first_n(element_references(*model, *element), reference_limit as nat));
    }
    let evidence = evidence_of(&shown);
    let how = how_exec(model, element, &shown, reference_limit);
    let why = inferred_exec(count, include_inferred);
    let inferred = inferred_exec(count, include_inferred);
    let mut confirmed = signature_notes_exec(&element.signature, true);
    let edges = edge_lines_exec(model, element, reference_limit);
    append_all(&mut confirmed, &edges);
    let mut unknown = signature_notes_exec(&element.signature, false);
    push_line(&mut unknown, owned("SCIP occurrence alone does not prove runtime call behavior"));
    push_line(&mut unknown, owned("intended public API status is unknown"));
    push_line(&mut unknown, owned("git recency is not available from SCIP"));
    let mut when: Vec<String> = Vec::new();
    push_line(&mut when, owned("runtime timing is not available from SCIP"));
    let five_w = FiveW {
        who: who_exec(element),
        what: what_exec(model, element),
        where_: where_exec(element, &paths, reference_limit),
        when,
        why,
        how,
    };
    let brief = ElementBrief { element, five_w, evidence, confirmed, inferred, unknown };
    proof {
        assert(texts(brief.unknown@) =~= signature_notes(element.signature, false) + fixed_unknowns());
        assert(texts(brief.five_w.when@) =~= when_lines());
        assert(reference_paths(deref_all(refs@)) == reference_paths(element_references(*model, *element)));
    }
    Ok(brief)
}

} // verus!
