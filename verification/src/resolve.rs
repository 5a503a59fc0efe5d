//! Resolving a requested id to one cached project: the element it names, or the symbol it
//! names.
use vstd::prelude::*;

use crate::mcp_error::McpError;
use crate::project_cache::{text_of, ProjectCache};
use crate::semantic_model::{element_answers_to, first_where, opt_deref, SemanticModel};
use crate::summaries::ElementSummary;
use crate::text::{owned, sorted_distinct, strictly_sorted, strip_prefix_or_same, strip_prefix_or_same_exec, text_eq, texts};

verus! {

/// The cached models, in the cache's order.
pub open spec fn cached_models(cache: &ProjectCache) -> Seq<SemanticModel> {
    cache.models.entry_seq().map_values(|e: (String, SemanticModel)| e.1)
}

/// The id with a leading `scip:` removed, when it has one.
pub open spec fn scip_id_of(requested: Seq<char>) -> Seq<char> {
    strip_prefix_or_same(requested, "scip:"@)
}

/// The element of `m` that `requested` names: the first element answering to the id as
/// given, or else, when the id carries a `scip:` prefix, the first answering to the id
/// without it.
pub open spec fn element_in_model(m: SemanticModel, requested: Seq<char>) -> Option<ElementSummary> {
    let scip = scip_id_of(requested);
    match first_where(m.elements@, |e: ElementSummary| element_answers_to(e, requested)) {
        Some(e) => Some(e),
        None => if scip == requested {
            None
        } else {
            first_where(m.elements@, |e: ElementSummary| element_answers_to(e, scip))
        },
    }
}

/// The models (in order) that have an element named by `requested`, each with that element.
pub open spec fn element_hits(models: Seq<SemanticModel>, requested: Seq<char>) -> Seq<(SemanticModel, ElementSummary)>
    decreases models.len(),
{
    if models.len() == 0 {
        Seq::empty()
    } else {
        let rest = element_hits(models.drop_last(), requested);
        match element_in_model(models.last(), requested) {
            Some(e) => rest.push((models.last(), e)),
            None => rest,
        }
    }
}

/// `m` mentions the symbol `s` in a reference, as an enclosing symbol of an element, or at
/// either end of a call edge.
pub open spec fn mentions_symbol(m: SemanticModel, s: Seq<char>) -> bool {
    ||| exists|i: int| 0 <= i < m.references@.len() && (#[trigger] m.references@[i]).referenced_symbol_id@ == s
    ||| exists|i: int| 0 <= i < m.elements@.len() && text_of((#[trigger] m.elements@[i]).enclosing_symbol) == Some(s)
    ||| exists|i: int|
        0 <= i < m.call_edges@.len() && ((#[trigger] m.call_edges@[i]).enclosing_symbol_id@ == s
            || m.call_edges@[i].referenced_symbol_id@ == s)
}

/// The symbol of `m` that `requested` names: the symbol id of the element it names, or else
/// the id itself (without a `scip:` prefix) when `m` mentions that symbol.
pub open spec fn symbol_in_model(m: SemanticModel, requested: Seq<char>) -> Option<Seq<char>> {
    match element_in_model(m, requested) {
        Some(e) => Some(e.symbol_id@),
        None => if mentions_symbol(m, scip_id_of(requested)) {
            Some(scip_id_of(requested))
        } else {
            None
        },
    }
}

/// The models (in order) in which `requested` names a symbol, each with that symbol.
pub open spec fn symbol_hits(models: Seq<SemanticModel>, requested: Seq<char>) -> Seq<(SemanticModel, Seq<char>)>
    decreases models.len(),
{
    if models.len() == 0 {
        Seq::empty()
    } else {
        let rest = symbol_hits(models.drop_last(), requested);
        match symbol_in_model(models.last(), requested) {
            Some(s) => rest.push((models.last(), s)),
            None => rest,
        }
    }
}

/// The project ids of the models of a sequence of hits.
pub open spec fn hit_project_ids<X>(hits: Seq<(SemanticModel, X)>) -> Seq<Seq<char>> {
    hits.map_values(|h: (SemanticModel, X)| h.0.project.project_id@)
}

/// The error owed when `requested` names no element (missing) or elements in several
/// projects (ambiguous, listing those projects in cache order).
pub open spec fn element_error_owed(hits: Seq<(SemanticModel, ElementSummary)>, requested: Seq<char>, e: McpError) -> bool {
    &&& hits.len() == 0 ==> (e matches McpError::MissingElement { message, symbol_id }
        && message == "requested RefactorRadar element was not found" && symbol_id@ == requested)
    &&& hits.len() > 1 ==> (e matches McpError::AmbiguousSymbol { message, symbol_id, project_ids }
        && message == "symbol id matched more than one cached project" && symbol_id@ == requested
        && texts(project_ids@) == hit_project_ids(hits))
}

/// The error owed when `requested` names no symbol (missing) or symbols in several projects
/// (ambiguous, listing those projects' ids sorted and without repeats).
pub open spec fn symbol_error_owed(hits: Seq<(SemanticModel, Seq<char>)>, requested: Seq<char>, e: McpError) -> bool {
    &&& hits.len() == 0 ==> (e matches McpError::MissingSymbol { message, symbol_id }
        && message == "requested RefactorRadar symbol was not found" && symbol_id@ == requested)
    &&& hits.len() > 1 ==> (e matches McpError::AmbiguousSymbol { message, symbol_id, project_ids }
        && message == "symbol id matched more than one cached project" && symbol_id@ == requested
        && strictly_sorted(texts(project_ids@)) && texts(project_ids@).to_set() == hit_project_ids(hits).to_set())
}

/// The dereferenced pairs.
pub open spec fn deref_pairs<A, B>(s: Seq<(&A, &B)>) -> Seq<(A, B)> {
    s.map_values(|p: (&A, &B)| (*p.0, *p.1))
}

/// The element of `model` that `requested` names (see `element_in_model`).
fn element_named<'a>(model: &'a SemanticModel, requested: &str, scip: &str) -> (r: Option<&'a ElementSummary>)
    requires
        scip@ == scip_id_of(requested@),
    ensures
        opt_deref(r) == element_in_model(*model, requested@),
{
    match model.element_by_id(requested) {
        Some(e) => Some(e),
        None => {
            if text_eq(scip, requested) {
                None
            } else {
                model.element_by_id(scip)
            }
        },
    }
}

/// Whether `model` mentions the symbol `s` (see `mentions_symbol`).
fn mentions_symbol_exec(model: &SemanticModel, s: &str) -> (r: bool)
    ensures
        r == mentions_symbol(*model, s@),
{
    let mut i: usize = 0;
    while i < model.references.len()
        invariant
            i <= model.references@.len(),
            forall|j: int| 0 <= j < i ==> (#[trigger] model.references@[j]).referenced_symbol_id@ != s@,
        decreases model.references@.len() - i,
    {
        if text_eq(model.references[i].referenced_symbol_id.as_str(), s) {
            return true;
        }
        i = i + 1;
    }
    let mut i: usize = 0;
    while i < model.elements.len()
        invariant
            i <= model.elements@.len(),
            forall|j: int| 0 <= j < i ==> text_of((#[trigger] model.elements@[j]).enclosing_symbol) != Some(s@),
        decreases model.elements@.len() - i,
    {
        match &model.elements[i].enclosing_symbol {
            Some(enclosing) => {
                if text_eq(enclosing.as_str(), s) {
                    return true;
                }
            },
            None => {},
        }
        i = i + 1;
    }
    let mut i: usize = 0;
    while i < model.call_edges.len()
        invariant
            i <= model.call_edges@.len(),
            forall|j: int|
                0 <= j < i ==> (#[trigger] model.call_edges@[j]).enclosing_symbol_id@ != s@
                    && model.call_edges@[j].referenced_symbol_id@ != s@,
        decreases model.call_edges@.len() - i,
    {
        let edge = &model.call_edges[i];
        if text_eq(edge.enclosing_symbol_id.as_str(), s) || text_eq(edge.referenced_symbol_id.as_str(), s) {
            return true;
        }
        i = i + 1;
    }
    false
}

/// Finds the one cached element that `requested` names: by stable id, symbol id or SCIP
/// symbol, and failing that by the id without a `scip:` prefix. No match is a missing
/// element; matches in more than one project are ambiguous, listing those projects in cache
/// order.
pub fn resolve_element<'a>(cache: &'a ProjectCache, requested: &str) -> (r: Result<(&'a SemanticModel, &'a ElementSummary), McpError>)
    ensures
        ({
            let hits = element_hits(cached_models(cache), requested@);
            &&& hits.len() == 1 ==> (r matches Ok((m, e)) && *m == hits[0].0 && *e == hits[0].1)
            &&& hits.len() != 1 ==> (r matches Err(e) && element_error_owed(hits, requested@, e))
        }),
{
    let scip = strip_prefix_or_same_exec(requested, "scip:");
    let entries = cache.models.entries();
    let ghost models = cached_models(cache);
    let mut found: Vec<(&'a SemanticModel, &'a ElementSummary)> = Vec::new();
    let mut i: usize = 0;
    while i < entries.len()
        invariant
            entries@ == cache.models.entry_seq(),
            models == cached_models(cache),
            scip@ == scip_id_of(requested@),
            i <= entries@.len(),
            deref_pairs(found@) == element_hits(models.subrange(0, i as int), requested@),
        decreases entries@.len() - i,
    {
        let model = &entries[i].1;
        let ghost prefix = models.subrange(0, (i + 1) as int);
        assert(prefix.drop_last() =~= models.subrange(0, i as int));
        assert(prefix.last() == *model);
        match element_named(model, requested, scip.as_str()) {
            Some(e) => {
                found.push((model, e));
                assert(deref_pairs(found@) =~= element_hits(prefix, requested@));
            },
            None => {},
        }
        i = i + 1;
    }
    assert(models.subrange(0, entries@.len() as int) =~= models);
    let ghost hits = element_hits(models, requested@);
    if found.len() == 0 {
        Err(McpError::missing_element(owned(requested)))
    } else if found.len() == 1 {
        assert(deref_pairs(found@)[0] == hits[0]);
        Ok(found[0])
    } else {
        let mut ids: Vec<String> = Vec::new();
        let mut k: usize = 0;
        while k < found.len()
            invariant
                k <= found@.len(),
                deref_pairs(found@) == hits,
                ids@.len() == k,
                texts(ids@) == hit_project_ids(hits).subrange(0, k as int),
            decreases found@.len() - k,
        {
            let (m, _e) = found[k];
            assert(deref_pairs(found@)[k as int] == hits[k as int]);
            ids.push(m.project.project_id.clone());
            assert(hit_project_ids(hits)[k as int] == hits[k as int].0.project.project_id@);
            assert(texts(ids@)[k as int] == ids@[k as int]@);
            assert(texts(ids@) =~= hit_project_ids(hits).subrange(0, (k + 1) as int));
            k = k + 1;
        }
        assert(hit_project_ids(hits).subrange(0, found@.len() as int) =~= hit_project_ids(hits));
        Err(McpError::ambiguous_symbol(owned(requested), ids))
    }
}

/// Finds the one cached project in which `requested` names a symbol, with that symbol: the
/// symbol id of the element it names, or else the id itself (without a `scip:` prefix) where a
/// reference, an element's enclosing symbol or a call edge mentions it. No match is a
/// missing symbol; matches in more than one project are ambiguous, listing those projects'
/// ids sorted and without repeats.
pub fn resolve_symbol_id<'a>(cache: &'a ProjectCache, requested: &str) -> (r: Result<(&'a SemanticModel, String), McpError>)
    ensures
        ({
            let hits = symbol_hits(cached_models(cache), requested@);
            &&& hits.len() == 1 ==> (r matches Ok((m, s)) && *m == hits[0].0 && s@ == hits[0].1)
            &&& hits.len() != 1 ==> (r matches Err(e) && symbol_error_owed(hits, requested@, e))
        }),
{
    let scip = strip_prefix_or_same_exec(requested, "scip:");
    let entries = cache.models.entries();
    let ghost models = cached_models(cache);
    let mut found: Vec<(&'a SemanticModel, String)> = Vec::new();
    let mut i: usize = 0;
    while i < entries.len()
        invariant
            entries@ == cache.models.entry_seq(),
            models == cached_models(cache),
            scip@ == scip_id_of(requested@),
            i <= entries@.len(),
            found@.len() == symbol_hits(models.subrange(0, i as int), requested@).len(),
            forall|j: int|
                0 <= j < found@.len() ==> *(#[trigger] found@[j]).0 == symbol_hits(
                    models.subrange(0, i as int),
                    requested@,
                )[j].0 && found@[j].1@ == symbol_hits(models.subrange(0, i as int), requested@)[j].1,
        decreases entries@.len() - i,
    {
        let model = &entries[i].1;
        let ghost prefix = models.subrange(0, (i + 1) as int);
        let ghost old_hits = symbol_hits(models.subrange(0, i as int), requested@);
        assert(prefix.drop_last() =~= models.subrange(0, i as int));
        assert(prefix.last() == *model);
        match element_named(model, requested, scip.as_str()) {
            Some(e) => {
                found.push((model, e.symbol_id.0.clone()));
            },
            None => {
                if mentions_symbol_exec(model, scip.as_str()) {
                    found.push((model, scip.clone()));
                }
            },
        }
        proof {
            let new_hits = symbol_hits(prefix, requested@);
            assert forall|j: int| 0 <= j < found@.len() implies *(#[trigger] found@[j]).0 == new_hits[j].0
                && found@[j].1@ == new_hits[j].1 by {
                if j < old_hits.len() {
                    assert(new_hits[j] == old_hits[j]);
                }
            }
        }
        i = i + 1;
    }
    assert(models.subrange(0, entries@.len() as int) =~= models);
    let ghost hits = symbol_hits(models, requested@);
    if found.len() == 0 {
        Err(McpError::missing_symbol(owned(requested)))
    } else if found.len() == 1 {
        let (m, s) = found.remove(0);
        Ok((m, s))
    } else {
        let mut ids: Vec<String> = Vec::new();
        let mut k: usize = 0;
        while k < found.len()
            invariant
                k <= found@.len(),
                found@.len() == hits.len(),
                forall|j: int| 0 <= j < found@.len() ==> *(#[trigger] found@[j]).0 == hits[j].0,
                ids@.len() == k,
                texts(ids@) == hit_project_ids(hits).subrange(0, k as int),
            decreases found@.len() - k,
        {
            let m = found[k].0;
            ids.push(m.project.project_id.clone());
            assert(hit_project_ids(hits)[k as int] == hits[k as int].0.project.project_id@);
            assert(texts(ids@)[k as int] == ids@[k as int]@);
            assert(texts(ids@) =~= hit_project_ids(hits).subrange(0, (k + 1) as int));
            k = k + 1;
        }
        assert(hit_project_ids(hits).subrange(0, found@.len() as int) =~= hit_project_ids(hits));
        let sorted = sorted_distinct(ids);
        Err(McpError::ambiguous_symbol(owned(requested), sorted))
    }
}

} // verus!
