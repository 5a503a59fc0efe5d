//! Identifiers: source span ids, symbol ids and stable ids, each a wrapped string.
use vstd::prelude::*;

use vstd::std_specs::cmp::PartialEqSpecImpl;

use crate::text::{decimal_text, push_decimal, push_text, text_eq};

verus! {

/// The text of a span id: `{project_id}::{document_path}:{line}:{column}`.
pub open spec fn span_text(project_id: Seq<char>, document_path: Seq<char>, line: u32, column: u32) -> Seq<char> {
    project_id + seq![':', ':'] + document_path + seq![':'] + decimal_text(line as nat) + seq![':']
        + decimal_text(column as nat)
}

/// Identifier of one source position inside a project document.
#[derive(Clone, Debug, Eq, Hash)]
pub struct Span(String);

impl PartialEq for Span {
    /// Two spans are equal when their id texts are.
    fn eq(&self, other: &Self) -> (r: bool) {
        text_eq(self.0.as_str(), other.0.as_str())
    }
}

impl PartialEqSpecImpl for Span {
    open spec fn obeys_eq_spec() -> bool {
        true
    }

    open spec fn eq_spec(&self, other: &Self) -> bool {
        self@ == other@
    }
}

impl View for Span {
    type V = Seq<char>;

    closed spec fn view(&self) -> Seq<char> {
        self.0@
    }
}

impl Span {
    /// Builds the id `{project_id}::{document_path}:{line}:{column}`.
    pub fn new(project_id: &str, document_path: &str, line: u32, column: u32) -> (r: Self)
        ensures
            r@ == span_text(project_id@, document_path@, line, column),
    {
        let mut s = String::new();
        push_text(&mut s, project_id);
        push_text(&mut s, "::");
        push_text(&mut s, document_path);
        push_text(&mut s, ":");
        push_decimal(&mut s, line as u64);
        push_text(&mut s, ":");
        push_decimal(&mut s, column as u64);
        proof {
            reveal_strlit("::");
            reveal_strlit(":");
        }
        assert(s@ =~= span_text(project_id@, document_path@, line, column));
        Span(s)
    }

    /// The id text.
    pub fn as_str(&self) -> (r: &str)
        ensures
            r@ == self@,
    {
        self.0.as_str()
    }

    /// An identical copy.
    pub fn copy(&self) -> (r: Self)
        ensures
            r == *self,
    {
        Span(self.0.clone())
    }
}

/// Identifier of a symbol as SCIP names it.
#[derive(Clone, Debug, Eq, Hash, PartialEq)]
pub struct SymbolId(pub String);

impl View for SymbolId {
    type V = Seq<char>;

    open spec fn view(&self) -> Seq<char> {
        self.0@
    }
}

impl SymbolId {
    /// Wraps a symbol text.
    pub fn new(symbol: &str) -> (r: Self)
        ensures
            r@ == symbol@,
    {
        SymbolId(symbol.to_owned())
    }

    /// The symbol text.
    pub fn as_str(&self) -> (r: &str)
        ensures
            r@ == self@,
    {
        self.0.as_str()
    }
}

/// Identifier of an element that stays the same across index runs.
#[derive(Clone, Debug, Eq, Hash, PartialEq)]
pub struct StableId(pub String);

impl View for StableId {
    type V = Seq<char>;

    open spec fn view(&self) -> Seq<char> {
        self.0@
    }
}

/// The stable id of a SCIP symbol: the symbol text behind a `scip:` prefix.
pub open spec fn stable_text(symbol: Seq<char>) -> Seq<char> {
    "scip:"@ + symbol
}

impl StableId {
    /// The stable id of a SCIP symbol (`scip:{symbol}`).
    pub fn from_scip_symbol(symbol: &str) -> (r: Self)
        ensures
            r@ == stable_text(symbol@),
    {
        let mut s = String::new();
        push_text(&mut s, "scip:");
        push_text(&mut s, symbol);
        StableId(s)
    }

    /// Wraps a stable id text.
    pub fn new(text: &str) -> (r: Self)
        ensures
            r@ == text@,
    {
        StableId(text.to_owned())
    }

    /// The stable id text.
    pub fn as_str(&self) -> (r: &str)
        ensures
            r@ == self@,
    {
        self.0.as_str()
    }
}

} // verus!
