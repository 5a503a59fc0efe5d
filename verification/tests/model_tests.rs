use refactor_radar::element_kind::normalize_kind;
use refactor_radar::semantic_model::occurrence_count;
use refactor_radar::{
    CallEdgeSummary, ElementKind, ElementSummary, FileSummary, Language, ProjectSummary,
    SemanticModel, SourceSpan, Span, StableId, SymbolId, SymbolReferenceSummary,
};

const CALLER: &str = "rust-analyzer cargo demo 0.1.0 demo/caller().";
const CALLEE: &str = "rust-analyzer cargo demo 0.1.0 demo/callee().";

fn element(symbol: &str, name: &str, kind: ElementKind) -> ElementSummary {
    ElementSummary {
        stable_id: StableId::from_scip_symbol(symbol),
        symbol_id: SymbolId::new(symbol),
        scip_symbol: symbol.to_owned(),
        language: Language::Rust,
        kind,
        display_name: name.to_owned(),
        package: None,
        enclosing_symbol: None,
        definition_span: None,
        signature: None,
        documentation: Vec::new(),
        reference_count: 0,
    }
}

fn span(path: &str, line: i32) -> SourceSpan {
    SourceSpan::from_scip_range("demo", path, &[line, 0, 4]).expect("range projects")
}

fn model() -> SemanticModel {
    SemanticModel {
        project: ProjectSummary {
            project_id: "demo".to_owned(),
            project_root: "demo".to_owned(),
            producer_name: None,
            producer_version: None,
        },
        files: vec![
            FileSummary {
                document_path: "src/lib.rs".to_owned(),
                language: "rust".to_owned(),
                symbol_count: 2,
                occurrence_count: 7,
            },
            FileSummary {
                document_path: "src/main.rs".to_owned(),
                language: "rust".to_owned(),
                symbol_count: 0,
                occurrence_count: 5,
            },
        ],
        elements: vec![
            element(CALLER, "caller", ElementKind::Function),
            element(CALLEE, "callee", ElementKind::Function),
        ],
        references: vec![SymbolReferenceSummary {
            referenced_symbol_id: SymbolId::new(CALLEE),
            source_span: span("src/lib.rs", 3),
            document_path: "src/lib.rs".to_owned(),
            symbol_roles: 0,
        }],
        call_edges: vec![
            CallEdgeSummary {
                enclosing_symbol_id: SymbolId::new(CALLER),
                referenced_symbol_id: SymbolId::new(CALLEE),
                evidence_span: span("src/lib.rs", 3),
                confidence: "scip".to_owned(),
            },
            CallEdgeSummary {
                enclosing_symbol_id: SymbolId::new(CALLEE),
                referenced_symbol_id: SymbolId::new(CALLEE),
                evidence_span: span("src/lib.rs", 9),
                confidence: "scip".to_owned(),
            },
        ],
        spans: vec![span("src/lib.rs", 0), span("src/lib.rs", 3)],
    }
}

#[test]
fn span_id_joins_project_document_line_and_column() {
    let id = Span::new("fixture", "src/lib.rs", 12, 0);

    assert_eq!("fixture::src/lib.rs:12:0", id.as_str());
    assert_eq!("p::d:4294967295:1", Span::new("p", "d", u32::MAX, 1).as_str());
}

#[test]
fn scip_range_projects_to_one_based_span() {
    let single = SourceSpan::from_scip_range("fixture", "src/lib.rs", &[2, 4, 9]).expect("three numbers");
    assert_eq!((3, 5, 3, 10), (single.start_line, single.start_column, single.end_line, single.end_column));
    assert_eq!("fixture::src/lib.rs:3:5", single.id.as_str());

    let multi = SourceSpan::from_scip_range("fixture", "src/lib.rs", &[0, 0, 3, 1]).expect("four numbers");
    assert_eq!((1, 1, 4, 2), (multi.start_line, multi.start_column, multi.end_line, multi.end_column));
}

#[test]
fn malformed_scip_range_is_a_projection_error() {
    let short = SourceSpan::from_scip_range("fixture", "src/lib.rs", &[1, 2]).unwrap_err();
    assert_eq!("failed to project SCIP source range", short.message());
    assert!(SourceSpan::from_scip_range("fixture", "src/lib.rs", &[1, -2, 3]).is_err());
    assert!(SourceSpan::from_scip_range("fixture", "src/lib.rs", &[1, 2, 3, 4, 5]).is_err());
}

#[test]
fn element_lookup_accepts_stable_symbol_and_scip_ids() {
    let model = model();
    let stable = StableId::from_scip_symbol(CALLEE);

    assert_eq!("scip:rust-analyzer cargo demo 0.1.0 demo/callee().", stable.as_str());
    assert_eq!(Some("callee"), model.element_by_id(stable.as_str()).map(|e| e.display_name.as_str()));
    assert_eq!(Some("callee"), model.element_by_id(CALLEE).map(|e| e.display_name.as_str()));
    assert_eq!(Some("caller"), model.element_by_id(CALLER).map(|e| e.display_name.as_str()));
    assert!(model.element_by_id("nothing").is_none());
}

#[test]
fn span_lookup_and_project_id() {
    let model = model();

    assert_eq!(Some(4), model.span_by_id("demo::src/lib.rs:4:1").map(|s| s.start_line));
    assert!(model.span_by_id("demo::src/lib.rs:99:1").is_none());
    assert!(model.has_project_id("demo"));
    assert!(!model.has_project_id("other"));
}

#[test]
fn call_edges_are_selected_by_endpoint() {
    let model = model();

    let outgoing = model.outgoing_call_edges(CALLER);
    assert_eq!(1, outgoing.len());
    assert_eq!(CALLEE, outgoing[0].referenced_symbol_id.as_str());

    let incoming = model.incoming_call_edges(CALLEE);
    assert_eq!(2, incoming.len());
    assert_eq!(CALLER, incoming[0].enclosing_symbol_id.as_str());
    assert_eq!(CALLEE, incoming[1].enclosing_symbol_id.as_str());

    assert!(model.incoming_call_edges(CALLER).is_empty());
}

#[test]
fn occurrence_count_sums_file_occurrences() {
    assert_eq!(12, occurrence_count(&model()));
}

#[test]
fn kind_debug_text_names_variants_and_quotes_unknown() {
    assert_eq!("EnumMember", ElementKind::EnumMember.debug_text());
    assert_eq!("Unknown(\"Thing\")", ElementKind::Unknown("Thing".to_owned()).debug_text());
    assert_eq!(format!("{:?}", ElementKind::Unknown("a\"b".to_owned())), ElementKind::Unknown("a\"b".to_owned()).debug_text());
}

#[test]
fn normalize_kind_drops_underscores_and_lowercases() {
    assert_eq!("enummember", normalize_kind("Enum_Member"));
    assert_eq!("enummember", normalize_kind("enum_member"));
    assert_eq!("", normalize_kind("___"));
    assert_eq!("i\u{307}", normalize_kind("\u{130}"));
}

#[test]
fn spans_are_equal_exactly_when_their_texts_are() {
    let a = Span::new("demo", "src/lib.rs", 3, 5);
    let b = Span::new("demo", "src/lib.rs", 3, 5);
    let c = Span::new("demo", "src/lib.rs", 3, 6);

    assert_eq!(a.as_str() == b.as_str(), a == b);
    assert!(a == b);
    assert_eq!(a.as_str() == c.as_str(), a == c);
    assert!(a != c);
}
