//! The kinds of semantic elements, their `Debug` names and the normalised kind text.
use vstd::prelude::*;

use crate::text::{ascii_lower_char, char_lowercase, chars_of, is_ascii_char, debug_quote, debug_quoted, lowercase_of, push_text, string_from_chars};

verus! {

/// The kind of a semantic element, as SCIP reports it.
#[derive(Clone, Debug, Eq, PartialEq)]
pub enum ElementKind {
    AssociatedType,
    Constant,
    Constructor,
    Enum,
    EnumMember,
    Field,
    File,
    Function,
    Macro,
    Method,
    MethodReceiver,
    Module,
    Namespace,
    Package,
    Parameter,
    SelfParameter,
    StaticMethod,
    StaticVariable,
    Struct,
    Trait,
    TraitMethod,
    Type,
    TypeAlias,
    TypeParameter,
    Union,
    Variable,
    Unknown(String),
}

/// The variant name of a kind without payload.
pub open spec fn unit_kind_name(kind: ElementKind) -> Seq<char> {
    match kind {
        ElementKind::AssociatedType => "AssociatedType"@,
        ElementKind::Constant => "Constant"@,
        ElementKind::Constructor => "Constructor"@,
        ElementKind::Enum => "Enum"@,
        ElementKind::EnumMember => "EnumMember"@,
        ElementKind::Field => "Field"@,
        ElementKind::File => "File"@,
        ElementKind::Function => "Function"@,
        ElementKind::Macro => "Macro"@,
        ElementKind::Method => "Method"@,
        ElementKind::MethodReceiver => "MethodReceiver"@,
        ElementKind::Module => "Module"@,
        ElementKind::Namespace => "Namespace"@,
        ElementKind::Package => "Package"@,
        ElementKind::Parameter => "Parameter"@,
        ElementKind::SelfParameter => "SelfParameter"@,
        ElementKind::StaticMethod => "StaticMethod"@,
        ElementKind::StaticVariable => "StaticVariable"@,
        ElementKind::Struct => "Struct"@,
        ElementKind::Trait => "Trait"@,
        ElementKind::TraitMethod => "TraitMethod"@,
        ElementKind::Type => "Type"@,
        ElementKind::TypeAlias => "TypeAlias"@,
        ElementKind::TypeParameter => "TypeParameter"@,
        ElementKind::Union => "Union"@,
        ElementKind::Variable => "Variable"@,
        ElementKind::Unknown(_) => "Unknown"@,
    }
}

/// The `Debug` text of a kind: its variant name, and for `Unknown` the quoted payload in brackets.
pub open spec fn kind_debug_text(kind: ElementKind) -> Seq<char> {
    match kind {
        ElementKind::Unknown(s) => "Unknown("@ + debug_quoted(s@) + ")"@,
        _ => unit_kind_name(kind),
    }
}

/// What `char::to_lowercase` yields for `c`: for an ASCII character its ASCII lower-case form.
pub open spec fn lower_of(c: char) -> Seq<char> {
    if is_ascii_char(c) {
        seq![ascii_lower_char(c)]
    } else {
        char_lowercase(c)
    }
}

/// The lower-cased form of `s` with every underscore dropped: each remaining character is
/// replaced by what `char::to_lowercase` yields for it.
pub open spec fn normalized_kind_text(s: Seq<char>) -> Seq<char>
    decreases s.len(),
{
    if s.len() == 0 {
        Seq::empty()
    } else if s.last() == '_' {
        normalized_kind_text(s.drop_last())
    } else {
        normalized_kind_text(s.drop_last()) + lower_of(s.last())
    }
}

/// The ASCII key of a kind text: underscores dropped, ASCII letters lower-cased.
pub open spec fn ascii_kind_key(s: Seq<char>) -> Seq<char>
    decreases s.len(),
{
    if s.len() == 0 {
        Seq::empty()
    } else if s.last() == '_' {
        ascii_kind_key(s.drop_last())
    } else {
        ascii_kind_key(s.drop_last()).push(ascii_lower_char(s.last()))
    }
}

/// Whether every character of `s` is ASCII.
pub open spec fn all_ascii(s: Seq<char>) -> bool {
    forall|i: int| 0 <= i < s.len() ==> is_ascii_char(#[trigger] s[i])
}

/// An ASCII kind text normalises to its ASCII key.
pub proof fn lemma_ascii_normalized(s: Seq<char>)
    requires
        all_ascii(s),
    ensures
        normalized_kind_text(s) == ascii_kind_key(s),
    decreases s.len(),
{
    if s.len() > 0 {
        assert forall|i: int| 0 <= i < s.drop_last().len() implies is_ascii_char(#[trigger] s.drop_last()[i]) by {
            assert(s.drop_last()[i] == s[i]);
        }
        lemma_ascii_normalized(s.drop_last());
        assert(is_ascii_char(s[s.len() - 1]));
        assert(normalized_kind_text(s.drop_last()) + seq![ascii_lower_char(s.last())]
            =~= ascii_kind_key(s.drop_last()).push(ascii_lower_char(s.last())));
    }
}

impl ElementKind {
    /// The `Debug` text of the kind (what `format!("{:?}", kind)` gives).
    pub fn debug_text(&self) -> (r: String)
        ensures
            r@ == kind_debug_text(*self),
    {
        match self {
            ElementKind::Unknown(s) => {
                let mut out = String::new();
                push_text(&mut out, "Unknown(");
                let quoted = debug_quote(s.as_str());
                push_text(&mut out, quoted.as_str());
                push_text(&mut out, ")");
                proof {
                    reveal_strlit("Unknown(");
                    reveal_strlit(")");
                }
                assert(out@ =~= kind_debug_text(*self));
                out
            },
            ElementKind::AssociatedType => "AssociatedType".to_owned(),
            ElementKind::Constant => "Constant".to_owned(),
            ElementKind::Constructor => "Constructor".to_owned(),
            ElementKind::Enum => "Enum".to_owned(),
            ElementKind::EnumMember => "EnumMember".to_owned(),
            ElementKind::Field => "Field".to_owned(),
            ElementKind::File => "File".to_owned(),
            ElementKind::Function => "Function".to_owned(),
            ElementKind::Macro => "Macro".to_owned(),
            ElementKind::Method => "Method".to_owned(),
            ElementKind::MethodReceiver => "MethodReceiver".to_owned(),
            ElementKind::Module => "Module".to_owned(),
            ElementKind::Namespace => "Namespace".to_owned(),
            ElementKind::Package => "Package".to_owned(),
            ElementKind::Parameter => "Parameter".to_owned(),
            ElementKind::SelfParameter => "SelfParameter".to_owned(),
            ElementKind::StaticMethod => "StaticMethod".to_owned(),
            ElementKind::StaticVariable => "StaticVariable".to_owned(),
            ElementKind::Struct => "Struct".to_owned(),
            ElementKind::Trait => "Trait".to_owned(),
            ElementKind::TraitMethod => "TraitMethod".to_owned(),
            ElementKind::Type => "Type".to_owned(),
            ElementKind::TypeAlias => "TypeAlias".to_owned(),
            ElementKind::TypeParameter => "TypeParameter".to_owned(),
            ElementKind::Union => "Union".to_owned(),
            ElementKind::Variable => "Variable".to_owned(),
        }
    }
}

/// Drops every underscore from `value` and lower-cases the rest, character by character.
pub fn normalize_kind(value: &str) -> (r: String)
    ensures
        r@ == normalized_kind_text(value@),
{
    let cs = chars_of(value);
    let mut out: Vec<char> = Vec::new();
    let mut i: usize = 0;
    while i < cs.len()
        invariant
            cs@ == value@,
            i <= cs@.len(),
            out@ == normalized_kind_text(cs@.subrange(0, i as int)),
        decreases cs@.len() - i,
    {
        let c = cs[i];
        assert(cs@.subrange(0, (i + 1) as int).drop_last() =~= cs@.subrange(0, i as int));
        if c != '_' {
            let lower = lowercase_of(c);
            assert(lower@ == lower_of(c));
            let mut j: usize = 0;
            let ghost before = out@;
            while j < lower.len()
                invariant
                    j <= lower@.len(),
                    out@ == before + lower@.subrange(0, j as int),
                decreases lower@.len() - j,
            {
                out.push(lower[j]);
                assert(out@ =~= before + lower@.subrange(0, (j + 1) as int));
                j = j + 1;
            }
            assert(lower@.subrange(0, j as int) =~= lower@);
        }
        i = i + 1;
    }
    assert(cs@.subrange(0, cs@.len() as int) =~= cs@);
    string_from_chars(&out)
}

} // verus!
