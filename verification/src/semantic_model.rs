//! The projected semantic model of one project and its lookups.
use vstd::prelude::*;

use crate::summaries::{CallEdge, ElementSummary, File, Project, SourceSpan, SymbolReferenceSummary};
use crate::text::text_eq;

verus! {

/// Everything the index says about one project.
#[derive(Clone, Debug, Eq, PartialEq)]
pub struct SemanticModel {
    pub project: Project,
    pub files: Vec<File>,
    pub elements: Vec<ElementSummary>,
    pub references: Vec<SymbolReferenceSummary>,
    pub call_edges: Vec<CallEdge>,
    pub spans: Vec<SourceSpan>,
}

/// An element answers to `id` by its stable id, its symbol id or its SCIP symbol.
pub open spec fn element_answers_to(element: ElementSummary, id: Seq<char>) -> bool {
    element.stable_id@ == id || element.symbol_id@ == id || element.scip_symbol@ == id
}

/// The first item of `items` that satisfies `p`, if any.
pub open spec fn first_where<T>(items: Seq<T>, p: spec_fn(T) -> bool) -> Option<T>
    decreases items.len(),
{
    if items.len() == 0 {
        None
    } else if p(items[0]) {
        Some(items[0])
    } else {
        first_where(items.drop_first(), p)
    }
}

/// The referenced value, if any.
pub open spec fn opt_deref<T>(r: Option<&T>) -> Option<T> {
    match r {
        Some(x) => Some(*x),
        None => None,
    }
}

/// Skipping an item that fails `p` does not change the first match.
pub proof fn lemma_first_where_skip<T>(items: Seq<T>, p: spec_fn(T) -> bool, i: int)
    requires
        0 <= i < items.len(),
        !p(items[i]),
    ensures
        first_where(items.skip(i), p) == first_where(items.skip(i + 1), p),
{
    assert(items.skip(i)[0] == items[i]);
    assert(items.skip(i).drop_first() =~= items.skip(i + 1));
}

/// The first match of a sequence whose first item matches is that item.
pub proof fn lemma_first_where_hit<T>(items: Seq<T>, p: spec_fn(T) -> bool, i: int)
    requires
        0 <= i < items.len(),
        p(items[i]),
    ensures
        first_where(items.skip(i), p) == Some(items[i]),
{
    assert(items.skip(i)[0] == items[i]);
}

/// A first match, when there is one, is an item of the sequence that satisfies `p`.
pub proof fn lemma_first_where_found<T>(items: Seq<T>, p: spec_fn(T) -> bool)
    ensures
        first_where(items, p) is Some <==> exists|i: int| 0 <= i < items.len() && p(#[trigger] items[i]),
        first_where(items, p) matches Some(x) ==> p(x) && items.contains(x),
    decreases items.len(),
{
    if items.len() > 0 {
        lemma_first_where_found(items.drop_first(), p);
        if !p(items[0]) {
            if exists|i: int| 0 <= i < items.len() && p(#[trigger] items[i]) {
                let i = choose|i: int| 0 <= i < items.len() && p(#[trigger] items[i]);
                assert(items.drop_first()[i - 1] == items[i]);
            }
            if first_where(items, p) is Some {
                let x = first_where(items, p)->0;
                let j = choose|j: int| 0 <= j < items.drop_first().len() && items.drop_first()[j] == x;
                assert(items[j + 1] == x);
            }
        } else {
            assert(items[0] == items[0]);
        }
    }
}

/// The dereferenced items of a sequence of references.
pub open spec fn deref_all<T>(items: Seq<&T>) -> Seq<T> {
    items.map_values(|x: &T| *x)
}

/// The call edges found inside the body of `id`.
pub open spec fn edges_from(edges: Seq<CallEdge>, id: Seq<char>) -> Seq<CallEdge> {
    edges.filter(|e: CallEdge| e.enclosing_symbol_id@ == id)
}

/// The call edges that reference `id`.
pub open spec fn edges_to(edges: Seq<CallEdge>, id: Seq<char>) -> Seq<CallEdge> {
    edges.filter(|e: CallEdge| e.referenced_symbol_id@ == id)
}

/// The sum of the occurrence counts of the files.
pub open spec fn total_occurrences(files: Seq<File>) -> int
    decreases files.len(),
{
    if files.len() == 0 {
        0
    } else {
        total_occurrences(files.drop_last()) + files.last().occurrence_count
    }
}

/// Keeps, in order, the edges whose chosen endpoint is `id` (the enclosing symbol when
/// `outgoing`, the referenced symbol otherwise).
fn select_edges<'a>(edges: &'a Vec<CallEdge>, id: &str, outgoing: bool) -> (r: Vec<&'a CallEdge>)
    ensures
        outgoing ==> deref_all(r@) == edges_from(edges@, id@),
        !outgoing ==> deref_all(r@) == edges_to(edges@, id@),
{
    let ghost p = if outgoing {
        |e: CallEdge| e.enclosing_symbol_id@ == id@
    } else {
        |e: CallEdge| e.referenced_symbol_id@ == id@
    };
    let mut out: Vec<&'a CallEdge> = Vec::new();
    let mut i: usize = 0;
    while i < edges.len()
        invariant
            i <= edges@.len(),
            p == (if outgoing {
                |e: CallEdge| e.enclosing_symbol_id@ == id@
            } else {
                |e: CallEdge| e.referenced_symbol_id@ == id@
            }),
            deref_all(out@) == edges@.subrange(0, i as int).filter(p),
        decreases edges@.len() - i,
    {
        let edge = &edges[i];
        let hit = if outgoing {
            text_eq(edge.enclosing_symbol_id.as_str(), id)
        } else {
            text_eq(edge.referenced_symbol_id.as_str(), id)
        };
        let ghost old_out = out@;
        if hit {
            out.push(edge);
        }
        proof {
            let s = edges@.subrange(0, (i + 1) as int);
            assert(s.drop_last() =~= edges@.subrange(0, i as int));
            reveal(Seq::filter);
            assert(hit == p(s.last()));
            if hit {
                assert(deref_all(out@) =~= deref_all(old_out).push(*edge));
            } else {
                assert(deref_all(out@) =~= deref_all(old_out));
            }
        }
        i = i + 1;
    }
    assert(edges@.subrange(0, edges@.len() as int) =~= edges@);
    out
}

impl SemanticModel {
    /// The first element that answers to `id` by stable id, symbol id or SCIP symbol.
    pub fn element_by_id(&self, id: &str) -> (r: Option<&ElementSummary>)
        ensures
            opt_deref(r) == first_where(self.elements@, |e: ElementSummary| element_answers_to(e, id@)),
    {
        let ghost p = |e: ElementSummary| element_answers_to(e, id@);
        let mut i: usize = 0;
        assert(self.elements@.skip(0) =~= self.elements@);
        while i < self.elements.len()
            invariant
                i <= self.elements@.len(),
                p == (|e: ElementSummary| element_answers_to(e, id@)),
                first_where(self.elements@, p) == first_where(self.elements@.skip(i as int), p),
            decreases self.elements@.len() - i,
        {
            let e = &self.elements[i];
            if text_eq(e.stable_id.as_str(), id) || text_eq(e.symbol_id.as_str(), id) || text_eq(
                e.scip_symbol.as_str(),
                id,
            ) {
                proof {
                    lemma_first_where_hit(self.elements@, p, i as int);
                }
                return Some(e);
            }
            proof {
                lemma_first_where_skip(self.elements@, p, i as int);
            }
            i = i + 1;
        }
        None
    }

    /// The first span whose id is `id`.
    pub fn span_by_id(&self, id: &str) -> (r: Option<&SourceSpan>)
        ensures
            opt_deref(r) == first_where(self.spans@, |s: SourceSpan| s.id@ == id@),
    {
        let ghost p = |s: SourceSpan| s.id@ == id@;
        let mut i: usize = 0;
        assert(self.spans@.skip(0) =~= self.spans@);
        while i < self.spans.len()
            invariant
                i <= self.spans@.len(),
                p == (|s: SourceSpan| s.id@ == id@),
                first_where(self.spans@, p) == first_where(self.spans@.skip(i as int), p),
            decreases self.spans@.len() - i,
        {
            let s = &self.spans[i];
            if text_eq(s.id.as_str(), id) {
                proof {
                    lemma_first_where_hit(self.spans@, p, i as int);
                }
                return Some(s);
            }
            proof {
                lemma_first_where_skip(self.spans@, p, i as int);
            }
            i = i + 1;
        }
        None
    }

    /// Whether the model belongs to the project `id`.
    pub fn has_project_id(&self, id: &str) -> (r: bool)
        ensures
            r == (self.project.project_id@ == id@),
    {
        text_eq(self.project.project_id.as_str(), id)
    }

    /// The call edges found inside the body of `id`, in model order.
    pub fn outgoing_call_edges(&self, id: &str) -> (r: Vec<&CallEdge>)
        ensures
            deref_all(r@) == edges_from(self.call_edges@, id@),
    {
        select_edges(&self.call_edges, id, true)
    }

    /// The call edges that reference `id`, in model order.
    pub fn incoming_call_edges(&self, id: &str) -> (r: Vec<&CallEdge>)
        ensures
            deref_all(r@) == edges_to(self.call_edges@, id@),
    {
        select_edges(&self.call_edges, id, false)
    }
}

/// The total number of occurrences over the model's files.
pub fn occurrence_count(model: &SemanticModel) -> (r: usize)
    requires
        total_occurrences(model.files@) <= usize::MAX,
    ensures
        r == total_occurrences(model.files@),
{
    let mut total: usize = 0;
    let mut i: usize = 0;
    while i < model.files.len()
        invariant
            i <= model.files@.len(),
            total == total_occurrences(model.files@.subrange(0, i as int)),
            total_occurrences(model.files@) <= usize::MAX,
        decreases model.files@.len() - i,
    {
        proof {
            lemma_total_occurrences_prefix(model.files@, (i + 1) as int);
            assert(model.files@.subrange(0, (i + 1) as int).drop_last() =~= model.files@.subrange(0, i as int));
        }
        total = total + model.files[i].occurrence_count;
        i = i + 1;
    }
    assert(model.files@.subrange(0, model.files@.len() as int) =~= model.files@);
    total
}

/// The occurrence total of a prefix never exceeds the total of the whole sequence.
proof fn lemma_total_occurrences_prefix(files: Seq<File>, n: int)
    requires
        0 <= n <= files.len(),
    ensures
        total_occurrences(files.subrange(0, n)) <= total_occurrences(files),
    decreases files.len(),
{
    if n < files.len() {
        assert(files.drop_last().subrange(0, n) =~= files.subrange(0, n));
        lemma_total_occurrences_prefix(files.drop_last(), n);
    } else {
        assert(files.subrange(0, n) =~= files);
    }
}

} // verus!
