//! What the query and report answers hold of their inputs: exact symbol, enclosing-symbol
//! and path matches, the start of the diagnostics, and the evidence behind test references.
use vstd::prelude::*;

use crate::project_cache::text_of;
use crate::queries::{
    children_of, enclosed_by, first_n, listed_elements, listing_keeps, names_symbol, references_to,
    RustScipGenerateResult, STDERR_DIGEST_CHARS,
};
use crate::report::{edge_lines, element_references, is_element_brief, test_line_of, test_reference_filter, ElementBrief};
use crate::semantic_model::SemanticModel;
use crate::summaries::{ElementSummary, SymbolReferenceSummary};
use crate::text::{char_prefix, contains_text, has_prefix, has_suffix, texts};

verus! {

/// An item of a capped sequence is an item of the sequence, and under the cap nothing is cut.
proof fn lemma_first_n_items<T>(s: Seq<T>, n: nat)
    ensures
        first_n(s, n).len() <= n,
        first_n(s, n).len() <= s.len(),
        forall|i: int| 0 <= i < first_n(s, n).len() ==> #[trigger] first_n(s, n)[i] == s[i],
        s.len() <= n ==> first_n(s, n) == s,
{
}

/// Every reference that `find_references` answers (`first_n(references_to(..), n)`, see its
/// contract) names exactly the resolved symbol, the answer holds at most `n` of them, and,
/// when the model holds no more than `n` references, every reference to exactly that symbol
/// is in it.
pub proof fn law_references_name_exactly_the_symbol(
    refs: Seq<SymbolReferenceSummary>,
    s: Seq<char>,
    n: nat,
    found: Seq<SymbolReferenceSummary>,
)
    requires
        found == first_n(references_to(refs, s), n),
    ensures
        found.len() <= n,
        forall|i: int| 0 <= i < found.len() ==> (#[trigger] found[i]).referenced_symbol_id@ == s,
        forall|j: int|
            0 <= j < refs.len() && (#[trigger] refs[j]).referenced_symbol_id@ == s && refs.len() <= n
                ==> found.contains(refs[j]),
{
    let pred = names_symbol(s);
    let all = refs.filter(pred);
    lemma_first_n_items(all, n);
    refs.lemma_filter_len(pred);
    assert forall|i: int| 0 <= i < found.len() implies (#[trigger] found[i]).referenced_symbol_id@ == s by {
        refs.lemma_filter_pred(pred, i);
    }
    assert forall|j: int|
        0 <= j < refs.len() && (#[trigger] refs[j]).referenced_symbol_id@ == s && refs.len() <= n
            implies found.contains(refs[j]) by {
        refs.lemma_filter_contains(pred, j);
    }
}

/// Every child that `find_related_symbols` answers (`first_n(children_of(..), n)`, see its
/// contract) has exactly the resolved symbol as its enclosing symbol, the answer holds at most
/// `n` of them, and, when the model holds no more than `n` elements, every element enclosed by
/// exactly that symbol is in it.
pub proof fn law_children_are_enclosed_by_exactly_the_symbol(
    elements: Seq<ElementSummary>,
    s: Seq<char>,
    n: nat,
    children: Seq<ElementSummary>,
)
    requires
        children == first_n(children_of(elements, s), n),
    ensures
        children.len() <= n,
        forall|i: int| 0 <= i < children.len() ==> text_of((#[trigger] children[i]).enclosing_symbol) == Some(s),
        forall|j: int|
            0 <= j < elements.len() && text_of((#[trigger] elements[j]).enclosing_symbol) == Some(s)
                && elements.len() <= n ==> children.contains(elements[j]),
{
    let pred = enclosed_by(s);
    let all = elements.filter(pred);
    lemma_first_n_items(all, n);
    elements.lemma_filter_len(pred);
    assert forall|i: int| 0 <= i < children.len() implies text_of((#[trigger] children[i]).enclosing_symbol) == Some(s) by {
        elements.lemma_filter_pred(pred, i);
    }
    assert forall|j: int|
        0 <= j < elements.len() && text_of((#[trigger] elements[j]).enclosing_symbol) == Some(s)
            && elements.len() <= n implies children.contains(elements[j]) by {
        elements.lemma_filter_contains(pred, j);
    }
}

/// Every element that a listing with a path filter answers (`first_n(listed_elements(..), n)`,
/// see the contract of `list_elements`) is defined in a document whose path is exactly the
/// requested one; and, without a kind filter and with no more than `n` elements, every element
/// defined in exactly that document is listed.
pub proof fn law_path_filter_is_exact(
    elements: Seq<ElementSummary>,
    kind: Option<Seq<char>>,
    p: Seq<char>,
    n: nat,
    listed: Seq<ElementSummary>,
)
    requires
        listed == first_n(listed_elements(elements, kind, Some(p)), n),
    ensures
        forall|i: int| 0 <= i < listed.len() ==> ((#[trigger] listed[i]).definition_span matches Some(d)
            && d.document_path@ == p),
        forall|j: int|
            0 <= j < elements.len() && kind is None && elements.len() <= n && ((#[trigger] elements[j]).definition_span matches Some(d)
                && d.document_path@ == p) ==> listed.contains(elements[j]),
{
    let pred = listing_keeps(kind, Some(p));
    let all = elements.filter(pred);
    lemma_first_n_items(all, n);
    elements.lemma_filter_len(pred);
    assert forall|i: int| 0 <= i < listed.len() implies ((#[trigger] listed[i]).definition_span matches Some(d)
        && d.document_path@ == p) by {
        elements.lemma_filter_pred(pred, i);
    }
    assert forall|j: int|
        0 <= j < elements.len() && kind is None && elements.len() <= n && ((#[trigger] elements[j]).definition_span matches Some(d)
            && d.document_path@ == p) implies listed.contains(elements[j]) by {
        elements.lemma_filter_contains(pred, j);
    }
}

/// The stderr digest of a generation answer (see `rust_scip_generate_result`) is the start of
/// the stderr text: 500 characters long, or the whole text when it is shorter, and equal to the
/// text character by character.
pub proof fn law_digest_is_start_of_stderr(stderr: Seq<char>, answer: RustScipGenerateResult)
    requires
        answer.stderr_digest@ == char_prefix(stderr, STDERR_DIGEST_CHARS as nat),
    ensures
        answer.stderr_digest@.len() == (if stderr.len() <= 500 { stderr.len() } else { 500 }),
        forall|i: int| 0 <= i < answer.stderr_digest@.len() ==> #[trigger] answer.stderr_digest@[i] == stderr[i],
{
}

/// Whether a reference carries any sign of test code: the SCIP test role bit `0x20`, or a
/// document under `tests/`, inside a `/tests/` directory, or named `*_test.rs` or `*_tests.rs`.
pub open spec fn has_test_evidence(r: SymbolReferenceSummary) -> bool {
    ||| (r.symbol_roles & 0x20i32) != 0
    ||| has_prefix(r.document_path@, "tests/"@)
    ||| contains_text(r.document_path@, "/tests/"@)
    ||| has_suffix(r.document_path@, "_test.rs"@)
    ||| has_suffix(r.document_path@, "_tests.rs"@)
}

/// A brief whose model holds no reference with any sign of test code labels no reference as a
/// test reference: its "how" holds only the call-edge lines.
pub proof fn law_brief_test_lines_need_test_evidence(
    m: SemanticModel,
    e: ElementSummary,
    infer: bool,
    limit: nat,
    b: ElementBrief,
)
    requires
        is_element_brief(m, e, infer, limit, b),
        forall|i: int| 0 <= i < m.references@.len() ==> !has_test_evidence(#[trigger] m.references@[i]),
    ensures
        texts(b.five_w.how@) == edge_lines(m, e, limit),
{
    let refs = element_references(m, e);
    let shown = first_n(refs, limit);
    let pred = test_reference_filter();
    let tests = shown.filter(pred);
    lemma_first_n_items(refs, limit);
    if tests.len() > 0 {
        shown.lemma_filter_pred(pred, 0);
        assert(tests.contains(tests[0]));
        shown.lemma_filter_contains_rev(pred, tests[0]);
        let k = choose|k: int| 0 <= k < shown.len() && shown[k] == tests[0];
        assert(refs[k] == tests[0]);
        assert(refs.contains(tests[0]));
        m.references@.lemma_filter_contains_rev(|r: SymbolReferenceSummary| crate::report::refers_to(e, r), tests[0]);
        let j = choose|j: int| 0 <= j < m.references@.len() && m.references@[j] == tests[0];
        assert(!has_test_evidence(m.references@[j]));
        assert(false);
    }
    assert(tests.map_values(test_line_of()) =~= Seq::<Seq<char>>::empty());
    assert(edge_lines(m, e, limit) + Seq::<Seq<char>>::empty() =~= edge_lines(m, e, limit));
}

/// A shown reference (one of the brief's first `limit` references to the element) that carries
/// the SCIP test role bit `0x20` is labelled in the brief's "how" as a test reference at its
/// document.
pub proof fn law_brief_marks_test_role_references(
    m: SemanticModel,
    e: ElementSummary,
    infer: bool,
    limit: nat,
    b: ElementBrief,
    i: int,
)
    requires
        is_element_brief(m, e, infer, limit, b),
        0 <= i < first_n(element_references(m, e), limit).len(),
        (first_n(element_references(m, e), limit)[i].symbol_roles & 0x20i32) != 0,
    ensures
        texts(b.five_w.how@).contains("test reference at "@ + first_n(element_references(m, e), limit)[i].document_path@),
{
    let shown = first_n(element_references(m, e), limit);
    let r = shown[i];
    let pred = test_reference_filter();
    let tests = shown.filter(pred);
    shown.lemma_filter_contains(pred, i);
    let k = choose|k: int| 0 <= k < tests.len() && tests[k] == r;
    let lines = tests.map_values(test_line_of());
    assert(lines[k] == "test reference at "@ + r.document_path@);
    let how = edge_lines(m, e, limit) + lines;
    assert(how[edge_lines(m, e, limit).len() + k] == lines[k]);
    assert(texts(b.five_w.how@) == how);
}

} // verus!
