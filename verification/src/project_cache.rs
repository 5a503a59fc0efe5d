//! The cache of loaded projects, keyed by project id.
use vstd::prelude::*;

use crate::keyed_table::{without_key, KeyedTable};
use crate::semantic_model::SemanticModel;

verus! {

/// A temporary file path that deletes its file when dropped (`tempfile::TempPath`).
#[verifier::external_type_specification]
#[verifier::external_body]
pub struct ExTempPath(tempfile::TempPath);

/// Loaded projects with the SCIP file each came from and what its producer reported.
/// Paths are held as their display text.
#[derive(Debug)]
pub struct ProjectCache {
    pub models: KeyedTable<SemanticModel>,
    pub scip_paths: KeyedTable<String>,
    pub temporary_scip_paths: KeyedTable<tempfile::TempPath>,
    pub producer_metadata: KeyedTable<String>,
    pub generation_diagnostics: KeyedTable<String>,
}

/// The string's text, when there is one.
pub open spec fn text_of(s: Option<String>) -> Option<Seq<char>> {
    match s {
        Some(t) => Some(t@),
        None => None,
    }
}

impl ProjectCache {
    /// Every table holds each project id once.
    pub open spec fn wf(&self) -> bool {
        &&& self.models.wf()
        &&& self.scip_paths.wf()
        &&& self.temporary_scip_paths.wf()
        &&& self.producer_metadata.wf()
        &&& self.generation_diagnostics.wf()
    }

    /// An empty cache.
    pub fn new() -> (r: Self)
        ensures
            r.wf(),
            r.models@ == Map::<Seq<char>, SemanticModel>::empty(),
            r.scip_paths@ == Map::<Seq<char>, String>::empty(),
            r.temporary_scip_paths@ == Map::<Seq<char>, tempfile::TempPath>::empty(),
            r.producer_metadata@ == Map::<Seq<char>, String>::empty(),
            r.generation_diagnostics@ == Map::<Seq<char>, String>::empty(),
    {
        ProjectCache {
            models: KeyedTable::new(),
            scip_paths: KeyedTable::new(),
            temporary_scip_paths: KeyedTable::new(),
            producer_metadata: KeyedTable::new(),
            generation_diagnostics: KeyedTable::new(),
        }
    }

    /// Caches `model` under its project id with the SCIP file it came from; the project
    /// moves to the end of the cache's order. The producer name
    /// and the generation diagnostics are recorded when given (an earlier record stays
    /// otherwise); the temporary SCIP file is kept when given and any earlier one released
    /// otherwise.
    pub fn insert(
        &mut self,
        model: SemanticModel,
        scip_path: String,
        diagnostics: Option<String>,
        temporary_scip_path: Option<tempfile::TempPath>,
    )
        requires
            old(self).wf(),
        ensures
            final(self).wf(),
            final(self).models@ == old(self).models@.insert(model.project.project_id@, model),
            final(self).models.entry_seq().drop_last() == without_key(old(self).models.entry_seq(), model.project.project_id@),
            final(self).models.entry_seq().last().0@ == model.project.project_id@,
            final(self).models.entry_seq().last().1 == model,
            final(self).models.entry_seq().len() > 0,
            final(self).scip_paths@ == old(self).scip_paths@.insert(model.project.project_id@, scip_path),
            final(self).producer_metadata@ == (match model.project.producer_name {
                Some(name) => old(self).producer_metadata@.insert(model.project.project_id@, name),
                None => old(self).producer_metadata@,
            }),
            final(self).generation_diagnostics@ == (match diagnostics {
                Some(d) => old(self).generation_diagnostics@.insert(model.project.project_id@, d),
                None => old(self).generation_diagnostics@,
            }),
            final(self).temporary_scip_paths@ == (match temporary_scip_path {
                Some(t) => old(self).temporary_scip_paths@.insert(model.project.project_id@, t),
                None => old(self).temporary_scip_paths@.remove(model.project.project_id@),
            }),
    {
        let project_id = model.project.project_id.clone();
        match &model.project.producer_name {
            Some(producer_name) => {
                self.producer_metadata.insert(project_id.clone(), producer_name.clone());
            },
            None => {},
        }
        match diagnostics {
            Some(d) => {
                self.generation_diagnostics.insert(project_id.clone(), d);
            },
            None => {},
        }
        match temporary_scip_path {
            Some(t) => {
                self.temporary_scip_paths.insert(project_id.clone(), t);
            },
            None => {
                self.temporary_scip_paths.remove(project_id.as_str());
            },
        }
        self.scip_paths.insert(project_id.clone(), scip_path);
        self.models.insert(project_id, model);
    }

    /// The model cached under `project_id`.
    pub fn model(&self, project_id: &str) -> (r: Option<&SemanticModel>)
        requires
            self.wf(),
        ensures
            match r {
                Some(m) => self.models@.dom().contains(project_id@) && self.models@[project_id@] == *m,
                None => !self.models@.dom().contains(project_id@),
            },
    {
        self.models.get(project_id)
    }
}

} // verus!
