//! Properties that hold across the library's operations.
use vstd::prelude::*;
use vstd::std_specs::cmp::PartialEqSpec;
use vstd::std_specs::convert::FromSpec;

use crate::element_kind::{all_ascii, ascii_kind_key, lemma_ascii_normalized, normalized_kind_text};
use crate::hotspots::{are_hotspot_lines, hotspot_line, is_top_files, lemma_ranks_before_order, ranks_before};
use crate::ids::{stable_text, Span};
use crate::mcp_error::{mcp_error_message, McpError};
use crate::project_cache::ProjectCache;
use crate::protocol::{mcp_error_answer, mcp_protocol_answer, scip_error_answer, ProtocolError};
use crate::queries::{first_n, kind_filter_passes, listed_elements, path_filter_passes};
use crate::report::{is_element_brief, ElementBrief};
use crate::resolve::scip_id_of;
use crate::scip_error::{scip_error_message, ScipError};
use crate::semantic_model::{element_answers_to, first_where, SemanticModel};
use crate::summaries::ElementSummary;
use crate::text::{has_prefix, texts};

verus! {

/// Every server error is answered on the protocol with its own message.
pub proof fn law_protocol_answer_keeps_message(error: McpError, answer: ProtocolError)
    requires
        mcp_error_answer(error, answer),
    ensures
        answer.message == mcp_error_message(error),
{
}

/// Every SCIP error is answered on the protocol with its own message.
pub proof fn law_scip_protocol_answer_keeps_message(error: ScipError, answer: ProtocolError)
    requires
        scip_error_answer(error, answer),
    ensures
        answer.message == scip_error_message(error),
{
}

/// A stable id with its `scip:` prefix removed is the SCIP symbol it was made from, so a
/// request by stable id falls back to the element's SCIP symbol.
pub proof fn law_stable_id_strips_to_symbol(symbol: Seq<char>)
    ensures
        scip_id_of(stable_text(symbol)) == symbol,
{
    reveal_strlit("scip:");
    let s = stable_text(symbol);
    assert(s.subrange(0, 5) =~= "scip:"@);
    assert(has_prefix(s, "scip:"@));
    assert(s.subrange(5, s.len() as int) =~= symbol);
}

/// A capped listing never holds more than the cap.
pub proof fn law_listing_is_capped<T>(items: Seq<T>, n: nat)
    ensures
        first_n(items, n).len() <= n,
        first_n(items, n).len() <= items.len(),
        forall|i: int| 0 <= i < first_n(items, n).len() ==> #[trigger] first_n(items, n)[i] == items[i],
{
}

/// Underscores never matter to the normalised kind text.
pub proof fn law_normalized_kind_ignores_underscores(a: Seq<char>, b: Seq<char>)
    ensures
        normalized_kind_text(a + seq!['_'] + b) == normalized_kind_text(a + b),
    decreases b.len(),
{
    if b.len() == 0 {
        assert((a + seq!['_'] + b).drop_last() =~= a);
        assert(a + b =~= a);
    } else {
        law_normalized_kind_ignores_underscores(a, b.drop_last());
        assert((a + seq!['_'] + b).drop_last() =~= a + seq!['_'] + b.drop_last());
        assert((a + b).drop_last() =~= a + b.drop_last());
        assert((a + seq!['_'] + b).last() == b.last());
        assert((a + b).last() == b.last());
    }
}

/// An element that answers to an id, with no earlier element answering to it, is what a
/// lookup by that id finds.
pub proof fn law_lookup_finds_first_answering_element(elements: Seq<ElementSummary>, id: Seq<char>, i: int)
    requires
        0 <= i < elements.len(),
        element_answers_to(elements[i], id),
        forall|j: int| 0 <= j < i ==> !element_answers_to(#[trigger] elements[j], id),
    ensures
        first_where(elements, |e: ElementSummary| element_answers_to(e, id)) == Some(elements[i]),
    decreases i,
{
    if i > 0 {
        assert forall|j: int| 0 <= j < i - 1 implies !element_answers_to(#[trigger] elements.drop_first()[j], id) by {
            assert(elements.drop_first()[j] == elements[j + 1]);
        }
        assert(!element_answers_to(elements[0], id));
        law_lookup_finds_first_answering_element(elements.drop_first(), id, i - 1);
    }
}

/// A brief shows at most `limit` pieces of evidence, and infers nothing when inference is
/// off.
pub proof fn law_brief_respects_limit_and_inference(m: SemanticModel, e: ElementSummary, infer: bool, limit: nat, b: ElementBrief)
    requires
        is_element_brief(m, e, infer, limit, b),
    ensures
        b.evidence@.len() <= limit,
        !infer ==> b.inferred@.len() == 0 && b.five_w.why@.len() == 0,
{
    if !infer {
        assert(texts(b.inferred@).len() == 0);
        assert(texts(b.five_w.why@).len() == 0);
    }
}

/// The top-ranked files of a sequence of paths are determined: two rankings that both
/// satisfy the definition are the same.
pub proof fn law_top_files_unique(paths: Seq<Seq<char>>, n: nat, r1: Seq<Seq<char>>, r2: Seq<Seq<char>>)
    requires
        is_top_files(paths, n, r1),
        is_top_files(paths, n, r2),
    ensures
        r1 == r2,
{
    lemma_top_files_prefix(paths, n, r1, r2);
    lemma_top_files_prefix(paths, n, r2, r1);
    lemma_not_shorter(paths, n, r1, r2);
    lemma_not_shorter(paths, n, r2, r1);
    assert(r1 =~= r2);
}

/// Two rankings agree on every position both have.
proof fn lemma_top_files_prefix(paths: Seq<Seq<char>>, n: nat, r1: Seq<Seq<char>>, r2: Seq<Seq<char>>)
    requires
        is_top_files(paths, n, r1),
        is_top_files(paths, n, r2),
    ensures
        forall|i: int| 0 <= i < r1.len() && i < r2.len() ==> r1[i] == r2[i],
{
    assert forall|i: int| 0 <= i < r1.len() && i < r2.len() implies r1[i] == r2[i] by {
        lemma_same_at(paths, n, r1, r2, i);
    }
}

/// Two rankings have the same entry at every position both have.
proof fn lemma_same_at(paths: Seq<Seq<char>>, n: nat, r1: Seq<Seq<char>>, r2: Seq<Seq<char>>, k: int)
    requires
        is_top_files(paths, n, r1),
        is_top_files(paths, n, r2),
        0 <= k < r1.len(),
        k < r2.len(),
    ensures
        r1[k] == r2[k],
    decreases k,
{
    assert forall|j: int| 0 <= j < k implies r1[j] == r2[j] by {
        lemma_same_at(paths, n, r1, r2, j);
    }
    lemma_not_better(paths, n, r1, r2, k);
    lemma_not_better(paths, n, r2, r1, k);
    lemma_ranks_before_order(paths, r1[k], r2[k], r1[k]);
}

/// Where two rankings agree before position `k`, the entry of one at `k` does not rank
/// before the entry of the other.
proof fn lemma_not_better(paths: Seq<Seq<char>>, n: nat, r1: Seq<Seq<char>>, r2: Seq<Seq<char>>, k: int)
    requires
        is_top_files(paths, n, r1),
        is_top_files(paths, n, r2),
        0 <= k < r1.len(),
        k < r2.len(),
        forall|j: int| 0 <= j < k ==> r1[j] == r2[j],
    ensures
        !ranks_before(paths, r1[k], r2[k]),
{
    let a = r1[k];
    lemma_ranks_before_order(paths, a, r2[k], a);
    lemma_ranks_before_order(paths, a, a, a);
    assert(paths.contains(a));
    if ranks_before(paths, a, r2[k]) {
        if r2.contains(a) {
            let j = choose|j: int| 0 <= j < r2.len() && r2[j] == a;
            if j < k {
                assert(r1[j] == a);
                assert(ranks_before(paths, r1[j], r1[k]));
            } else if j > k {
                assert(ranks_before(paths, r2[k], r2[j]));
            }
        } else {
            assert(ranks_before(paths, r2[k], a));
        }
    }
}

/// A ranking that agrees with another on all its positions is not shorter than it.
proof fn lemma_not_shorter(paths: Seq<Seq<char>>, n: nat, r1: Seq<Seq<char>>, r2: Seq<Seq<char>>)
    requires
        is_top_files(paths, n, r1),
        is_top_files(paths, n, r2),
        forall|i: int| 0 <= i < r1.len() && i < r2.len() ==> r1[i] == r2[i],
    ensures
        r1.len() >= r2.len(),
{
    if r1.len() < r2.len() {
        let b = r2[r1.len() as int];
        assert(paths.contains(b));
        if r1.contains(b) {
            let j = choose|j: int| 0 <= j < r1.len() && r1[j] == b;
            assert(r2[j] == b);
            assert(ranks_before(paths, r2[j], r2[r1.len() as int]));
            lemma_ranks_before_order(paths, b, b, b);
        }
    }
}

/// The hotspot lines of a sequence of paths are determined by the paths and the cap.
pub proof fn law_hotspot_lines_unique(paths: Seq<Seq<char>>, n: nat, l1: Seq<Seq<char>>, l2: Seq<Seq<char>>)
    requires
        are_hotspot_lines(paths, n, l1),
        are_hotspot_lines(paths, n, l2),
    ensures
        l1 == l2,
{
    let r1 = choose|r: Seq<Seq<char>>| is_top_files(paths, n, r) && l1 == r.map_values(|p: Seq<char>| hotspot_line(paths, p));
    let r2 = choose|r: Seq<Seq<char>>| is_top_files(paths, n, r) && l2 == r.map_values(|p: Seq<char>| hotspot_line(paths, p));
    law_top_files_unique(paths, n, r1, r2);
}

/// A listing without kind or path filter keeps every element.
pub proof fn law_unfiltered_listing_keeps_all(elements: Seq<ElementSummary>)
    ensures
        listed_elements(elements, None, None) == elements,
    decreases elements.len(),
{
    reveal(Seq::filter);
    if elements.len() > 0 {
        law_unfiltered_listing_keeps_all(elements.drop_last());
        assert(elements.drop_last().push(elements.last()) =~= elements);
    }
}

/// A model cached under its project id is what a later lookup of that id finds, and every
/// other cached project stays as it was.
pub proof fn law_cache_read_after_insert(before: ProjectCache, after: ProjectCache, model: SemanticModel, other: Seq<char>)
    requires
        after.models@ == before.models@.insert(model.project.project_id@, model),
    ensures
        after.models@.dom().contains(model.project.project_id@),
        after.models@[model.project.project_id@] == model,
        other != model.project.project_id@ ==> after.models@.dom().contains(other) == before.models@.dom().contains(other),
        other != model.project.project_id@ && before.models@.dom().contains(other) ==> after.models@[other] == before.models@[other],
{
}

/// The kind filter of a listing ignores underscores and ASCII letter case: two ASCII kind
/// names with the same key (such as `enum_member`, `EnumMember` and `ENUM_MEMBER`) list the
/// same elements.
pub proof fn law_listing_kind_ignores_case_and_underscores(
    elements: Seq<ElementSummary>,
    k1: Seq<char>,
    k2: Seq<char>,
    path: Option<Seq<char>>,
)
    requires
        all_ascii(k1),
        all_ascii(k2),
        ascii_kind_key(k1) == ascii_kind_key(k2),
    ensures
        listed_elements(elements, Some(k1), path) == listed_elements(elements, Some(k2), path),
{
    lemma_ascii_normalized(k1);
    lemma_ascii_normalized(k2);
    let p1 = |e: ElementSummary| kind_filter_passes(e, Some(k1)) && path_filter_passes(e, path);
    let p2 = |e: ElementSummary| kind_filter_passes(e, Some(k2)) && path_filter_passes(e, path);
    assert(p1 =~= p2);
}

/// Converting a server error with `From` gives exactly the protocol answer that
/// `to_protocol_error` gives.
pub proof fn law_from_is_protocol_answer(error: McpError)
    ensures
        <ProtocolError as FromSpec<McpError>>::obeys_from_spec(),
        <ProtocolError as FromSpec<McpError>>::from_spec(error) == mcp_protocol_answer(error),
{
}

/// Two spans are equal (`==`) exactly when their id texts (`as_str`) are.
pub proof fn law_span_equality_is_text_equality(a: Span, b: Span)
    ensures
        a.eq_spec(&b) <==> a@ == b@,
{
}

} // verus!
