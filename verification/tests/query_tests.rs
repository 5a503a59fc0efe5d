use refactor_radar::hotspots::hotspot_lines;
use refactor_radar::protocol::{DetailField, DetailValue, Details, ProtocolError, ProtocolErrorCode};
use refactor_radar::queries::{
    find_references, find_related_symbols, function_signature_facts, get_function_signature,
    get_source_span, list_elements, parse_format_param, project_scan_result,
    rust_scip_generate_result, scip_project_result,
};
use refactor_radar::resolve::{resolve_element, resolve_symbol_id};
use refactor_radar::scip_error::ScipError;
use refactor_radar::text::sorted_distinct;
use refactor_radar::tools::{
    get_5w_summary, get_element_brief, get_project_summary, list_project_elements,
    ElementBriefParams, ElementQueryParams,
};
use refactor_radar::{
    scip_to_protocol_error, to_protocol_error, CallEdgeSummary, ElementKind, ElementSummary,
    FileSummary, Format, Language, McpError, ProjectCache, ProjectSummary, SemanticModel,
    SourceSpan, StableId, SymbolId, SymbolReferenceSummary,
};

const PARENT: &str = "rust-analyzer cargo demo 0.1.0 demo/Shape#";
const CHILD: &str = "rust-analyzer cargo demo 0.1.0 demo/Shape#Circle.";
const RUN: &str = "rust-analyzer cargo demo 0.1.0 demo/run().";
const HELP: &str = "rust-analyzer cargo demo 0.1.0 demo/help().";
const EXTERNAL: &str = "rust-analyzer cargo std 1.0.0 std/println!().";

fn span(project: &str, path: &str, line: i32) -> SourceSpan {
    SourceSpan::from_scip_range(project, path, &[line, 0, 4]).expect("range projects")
}

fn element(project: &str, symbol: &str, name: &str, kind: ElementKind, enclosing: Option<&str>, path: Option<&str>) -> ElementSummary {
    ElementSummary {
        stable_id: StableId::from_scip_symbol(symbol),
        symbol_id: SymbolId::new(symbol),
        scip_symbol: symbol.to_owned(),
        language: Language::Rust,
        kind,
        display_name: name.to_owned(),
        package: Some("demo".to_owned()),
        enclosing_symbol: enclosing.map(str::to_owned),
        definition_span: path.map(|p| span(project, p, 1)),
        signature: None,
        documentation: Vec::new(),
        reference_count: 0,
    }
}

fn reference(project: &str, symbol: &str, path: &str, line: i32) -> SymbolReferenceSummary {
    SymbolReferenceSummary {
        referenced_symbol_id: SymbolId::new(symbol),
        source_span: span(project, path, line),
        document_path: path.to_owned(),
        symbol_roles: 0,
    }
}

fn model(project: &str) -> SemanticModel {
    SemanticModel {
        project: ProjectSummary {
            project_id: project.to_owned(),
            project_root: project.to_owned(),
            producer_name: Some("rust-analyzer".to_owned()),
            producer_version: Some("1.0".to_owned()),
        },
        files: vec![FileSummary {
            document_path: "src/lib.rs".to_owned(),
            language: "rust".to_owned(),
            symbol_count: 4,
            occurrence_count: 9,
        }],
        elements: vec![
            element(project, PARENT, "Shape", ElementKind::Enum, None, Some("src/lib.rs")),
            element(project, CHILD, "Circle", ElementKind::EnumMember, Some(PARENT), None),
            element(project, RUN, "run", ElementKind::Function, None, Some("src/main.rs")),
            element(project, HELP, "help", ElementKind::Function, None, Some("src/lib.rs")),
        ],
        references: vec![
            reference(project, RUN, "src/main.rs", 5),
            reference(project, HELP, "src/lib.rs", 6),
            reference(project, HELP, "src/main.rs", 7),
            reference(project, EXTERNAL, "src/main.rs", 8),
        ],
        call_edges: vec![CallEdgeSummary {
            enclosing_symbol_id: SymbolId::new(RUN),
            referenced_symbol_id: SymbolId::new(HELP),
            evidence_span: span(project, "src/main.rs", 7),
            confidence: "scip".to_owned(),
        }],
        spans: vec![span(project, "src/lib.rs", 1), span(project, "src/main.rs", 1)],
    }
}

fn cache_with(projects: &[&str]) -> ProjectCache {
    let mut cache = ProjectCache::new();
    for project in projects {
        cache.insert(model(project), format!("/tmp/{project}.scip"), None, None);
    }
    cache
}

#[test]
fn cache_insert_records_model_path_producer_and_diagnostics() {
    let mut cache = ProjectCache::new();
    cache.insert(model("demo"), "/tmp/demo.scip".to_owned(), Some("indexed".to_owned()), None);

    assert!(cache.models.contains_key("demo"));
    assert_eq!(Some("/tmp/demo.scip"), cache.scip_paths.get("demo").map(String::as_str));
    assert_eq!(Some("rust-analyzer"), cache.producer_metadata.get("demo").map(String::as_str));
    assert_eq!(Some("indexed"), cache.generation_diagnostics.get("demo").map(String::as_str));
    assert!(!cache.temporary_scip_paths.contains_key("demo"));
}

#[test]
fn cache_reinsert_moves_project_to_the_end() {
    let mut cache = ProjectCache::new();
    cache.insert(model("a"), "/tmp/a.scip".to_owned(), None, None);
    cache.insert(model("b"), "/tmp/b.scip".to_owned(), None, None);
    cache.insert(model("a"), "/tmp/a2.scip".to_owned(), None, None);

    let order: Vec<&str> = cache.models.entries().iter().map(|(k, _)| k.as_str()).collect();
    assert_eq!(vec!["b", "a"], order);
}

#[test]
fn cache_reinsert_replaces_and_releases_temporary_file() {
    let temporary = tempfile::NamedTempFile::new().expect("temporary file").into_temp_path();
    let path = temporary.to_path_buf();

    let mut cache = ProjectCache::new();
    cache.insert(model("demo"), "/tmp/first.scip".to_owned(), None, Some(temporary));
    assert!(cache.temporary_scip_paths.contains_key("demo"));
    assert!(path.exists());

    cache.insert(model("demo"), "/tmp/second.scip".to_owned(), None, None);
    assert!(!cache.temporary_scip_paths.contains_key("demo"));
    assert!(!path.exists());
    assert_eq!(Some("/tmp/second.scip"), cache.scip_paths.get("demo").map(String::as_str));
    assert_eq!(1, cache.models.entries().len());
}

#[test]
fn resolve_element_finds_single_match_and_strips_scip_prefix() {
    let cache = cache_with(&["demo"]);

    let (model, element) = resolve_element(&cache, RUN).expect("one match");
    assert_eq!("demo", model.project.project_id);
    assert_eq!("run", element.display_name);

    let prefixed = format!("scip:{HELP}");
    let (_, element) = resolve_element(&cache, &prefixed).expect("prefix stripped");
    assert_eq!("help", element.display_name);
}

#[test]
fn resolve_element_reports_missing_and_ambiguous() {
    let cache = cache_with(&["alpha", "beta"]);

    match resolve_element(&cache, "nothing") {
        Err(McpError::MissingElement { symbol_id, message }) => {
            assert_eq!("nothing", symbol_id);
            assert_eq!("requested RefactorRadar element was not found", message);
        }
        other => panic!("unexpected {other:?}"),
    }
    match resolve_element(&cache, RUN) {
        Err(McpError::AmbiguousSymbol { project_ids, symbol_id, .. }) => {
            assert_eq!(vec!["alpha".to_owned(), "beta".to_owned()], project_ids);
            assert_eq!(RUN, symbol_id);
        }
        other => panic!("unexpected {other:?}"),
    }
}

#[test]
fn resolve_symbol_id_falls_back_to_mentions() {
    let cache = cache_with(&["demo"]);

    let (_, symbol) = resolve_symbol_id(&cache, EXTERNAL).expect("referenced symbol");
    assert_eq!(EXTERNAL, symbol);

    let (_, symbol) = resolve_symbol_id(&cache, StableId::from_scip_symbol(RUN).as_str()).expect("element");
    assert_eq!(RUN, symbol);

    assert!(matches!(resolve_symbol_id(&cache, "unknown"), Err(McpError::MissingSymbol { .. })));
}

#[test]
fn ambiguous_symbol_lists_projects_sorted_once() {
    let cache = cache_with(&["zeta", "alpha", "mid"]);

    match resolve_symbol_id(&cache, EXTERNAL) {
        Err(McpError::AmbiguousSymbol { project_ids, .. }) => {
            assert_eq!(vec!["alpha".to_owned(), "mid".to_owned(), "zeta".to_owned()], project_ids);
        }
        other => panic!("unexpected {other:?}"),
    }
}

#[test]
fn sorted_distinct_orders_and_deduplicates() {
    let sorted = sorted_distinct(vec!["b".to_owned(), "a".to_owned(), "b".to_owned(), "ab".to_owned(), "".to_owned()]);

    assert_eq!(vec!["".to_owned(), "a".to_owned(), "ab".to_owned(), "b".to_owned()], sorted);
}

#[test]
fn list_elements_filters_by_kind_path_and_limit() {
    let model = model("demo");

    let all = list_elements(&model, None, None, None);
    assert_eq!(4, all.len());

    let members = list_elements(&model, Some("enum_member"), None, None);
    assert_eq!(vec!["Circle"], members.iter().map(|e| e.display_name.as_str()).collect::<Vec<_>>());

    let in_lib = list_elements(&model, None, Some("src/lib.rs"), None);
    assert_eq!(vec!["Shape", "help"], in_lib.iter().map(|e| e.display_name.as_str()).collect::<Vec<_>>());

    let functions = list_elements(&model, Some("FUNCTION"), None, Some(1));
    assert_eq!(vec!["run"], functions.iter().map(|e| e.display_name.as_str()).collect::<Vec<_>>());
}

#[test]
fn listing_kind_ignores_underscores_and_letter_case() {
    let cache = cache_with(&["demo"]);
    let names = |kind: &str| {
        let params = ElementQueryParams {
            project_id: "demo".to_owned(),
            kind: Some(kind.to_owned()),
            path: None,
            limit: None,
        };
        list_project_elements(&cache, &params)
            .expect("cached")
            .iter()
            .map(|e| e.display_name.clone())
            .collect::<Vec<_>>()
    };

    assert_eq!(vec!["Circle".to_owned()], names("enum_member"));
    assert_eq!(names("enum_member"), names("EnumMember"));
    assert_eq!(names("enum_member"), names("ENUM_MEMBER"));
}

#[test]
fn list_project_elements_reports_missing_project() {
    let cache = cache_with(&["demo"]);
    let params = ElementQueryParams { project_id: "other".to_owned(), kind: None, path: None, limit: None };

    assert!(matches!(list_project_elements(&cache, &params), Err(McpError::MissingProject { .. })));

    let params = ElementQueryParams { project_id: "demo".to_owned(), kind: Some("enum".to_owned()), path: None, limit: None };
    assert_eq!(1, list_project_elements(&cache, &params).expect("cached").len());
}

#[test]
fn find_references_filters_and_caps() {
    let cache = cache_with(&["demo"]);

    let refs = find_references(&cache, HELP, None).expect("resolved");
    assert_eq!(vec!["src/lib.rs", "src/main.rs"], refs.iter().map(|r| r.document_path.as_str()).collect::<Vec<_>>());

    let capped = find_references(&cache, HELP, Some(1)).expect("resolved");
    assert_eq!(1, capped.len());
}

#[test]
fn related_symbols_report_children_and_call_edges() {
    let cache = cache_with(&["demo"]);

    let parent = find_related_symbols(&cache, PARENT, None).expect("resolved");
    assert_eq!(vec!["Circle"], parent.child_symbols.iter().map(|e| e.display_name.as_str()).collect::<Vec<_>>());

    let run = find_related_symbols(&cache, RUN, None).expect("resolved");
    assert_eq!(1, run.outgoing_function_like_references.len());
    assert!(run.incoming_function_like_references.is_empty());

    let help = find_related_symbols(&cache, HELP, Some(0)).expect("resolved");
    assert!(help.incoming_function_like_references.is_empty());
}

#[test]
fn source_span_is_found_across_projects() {
    let cache = cache_with(&["alpha", "beta"]);

    let found = get_source_span(&cache, "beta::src/main.rs:2:1").expect("found");
    assert_eq!("src/main.rs", found.document_path);

    match get_source_span(&cache, "gamma::src/main.rs:2:1") {
        Err(McpError::MissingSpan { span_id, .. }) => assert_eq!("gamma::src/main.rs:2:1", span_id),
        other => panic!("unexpected {other:?}"),
    }
}

#[test]
fn function_signature_facts_copy_ids_and_span() {
    let model = model("demo");
    let facts = function_signature_facts(&model.elements[2]);

    assert_eq!(RUN, facts.symbol_id);
    assert_eq!(format!("scip:{RUN}"), facts.stable_id);
    assert_eq!(Some("demo::src/main.rs:2:1".to_owned()), facts.definition_span_id);
    assert!(facts.signature.is_none());

    let cache = cache_with(&["demo"]);
    assert!(get_function_signature(&cache, RUN).is_ok());
    assert!(get_function_signature(&cache, "nothing").is_err());
}

#[test]
fn format_parameter_names_are_checked() {
    assert_eq!(Some(Format::Binary), parse_format_param(Some("scip")).expect("scip"));
    assert_eq!(Some(Format::Json), parse_format_param(Some("json")).expect("json"));
    assert_eq!(None, parse_format_param(None).expect("none"));
    match parse_format_param(Some("yaml")) {
        Err(McpError::UnsupportedFormat { format, .. }) => assert_eq!("yaml", format),
        other => panic!("unexpected {other:?}"),
    }
}

#[test]
fn load_and_scan_results_count_the_model() {
    let model = model("demo");

    let loaded = scip_project_result(&model);
    assert_eq!(("demo", 1, 4, 9), (loaded.project_id.as_str(), loaded.document_count, loaded.symbol_count, loaded.occurrence_count));

    let scanned = project_scan_result(&model, "/tmp/out.scip".to_owned());
    assert_eq!("/tmp/out.scip", scanned.output_path);
    assert_eq!(9, scanned.occurrence_count);
}

#[test]
fn generate_result_keeps_first_500_stderr_characters() {
    let model = model("demo");
    let stderr = "é".repeat(600);

    let result = rust_scip_generate_result("/tmp/out.scip".to_owned(), &stderr, Some(&model), 42);
    assert_eq!(500, result.stderr_digest.chars().count());
    assert_eq!(Some("rust-analyzer".to_owned()), result.producer_name);
    assert_eq!(Some("1.0".to_owned()), result.producer_version);
    assert_eq!(42, result.file_size);

    let short = rust_scip_generate_result("/tmp/out.scip".to_owned(), "ok", None, 0);
    assert_eq!("ok", short.stderr_digest);
    assert_eq!(None, short.producer_name);
}

#[test]
fn project_summary_counts_and_reports_missing_project() {
    let cache = cache_with(&["demo"]);

    let summary = get_project_summary(&cache, "demo").expect("cached");
    assert_eq!((1, 4, 4), (summary.document_count, summary.element_count, summary.reference_count));
    assert_eq!(vec!["src/main.rs (3)".to_owned(), "src/lib.rs (1)".to_owned()], summary.hotspot_files);

    match get_project_summary(&cache, "nope") {
        Err(McpError::MissingProject { project_id, .. }) => assert_eq!("nope", project_id),
        other => panic!("unexpected {other:?}"),
    }
}

#[test]
fn hotspots_rank_by_count_then_path() {
    let paths: Vec<String> = ["b.rs", "a.rs", "c.rs", "c.rs", "b.rs", "d.rs"].iter().map(|p| p.to_string()).collect();

    assert_eq!(vec!["b.rs (2)".to_owned(), "c.rs (2)".to_owned(), "a.rs (1)".to_owned()], hotspot_lines(&paths, 3));
    assert!(hotspot_lines(&paths, 0).is_empty());
    assert_eq!(4, hotspot_lines(&paths, 10).len());
}

#[test]
fn element_brief_tools_apply_defaults() {
    let cache = cache_with(&["demo"]);
    let params = ElementBriefParams { symbol_id: HELP.to_owned(), project_id: None, include_inferred: None, reference_limit: None };

    let brief = get_element_brief(&cache, &params).expect("brief");
    assert_eq!(2, brief.evidence.len());
    assert_eq!(vec!["referenced 2 time(s) in the index, so other code likely depends on it".to_owned()], brief.inferred);

    let summary = get_5w_summary(&cache, HELP, Some(1)).expect("brief");
    assert_eq!(1, summary.evidence.len());
    assert!(summary.five_w.how.iter().any(|line| line.contains("incoming function_like_reference from")));

    assert!(matches!(get_5w_summary(&cache, "nothing", None), Err(McpError::MissingElement { .. })));
}

#[test]
fn server_errors_map_to_protocol_codes_and_details() {
    let missing = to_protocol_error(McpError::missing_project("demo".to_owned()));
    assert_eq!(ProtocolErrorCode::ResourceNotFound, missing.code);
    assert_eq!("requested RefactorRadar project was not found", missing.message);
    assert_eq!(
        Details::One(DetailField { key: "project_id", value: DetailValue::Text("demo".to_owned()) }),
        missing.data
    );

    let ambiguous = to_protocol_error(McpError::ambiguous_symbol("s".to_owned(), vec!["a".to_owned(), "b".to_owned()]));
    assert_eq!(ProtocolErrorCode::InvalidParams, ambiguous.code);
    assert_eq!(
        Details::Two(
            DetailField { key: "symbol_id", value: DetailValue::Text("s".to_owned()) },
            DetailField { key: "project_ids", value: DetailValue::TextList(vec!["a".to_owned(), "b".to_owned()]) },
        ),
        ambiguous.data
    );

    let failed = to_protocol_error(McpError::generated_scip_metadata_read_failed("/tmp/x".to_owned(), "gone".to_owned()));
    assert_eq!(ProtocolErrorCode::InternalError, failed.code);
    assert_eq!("failed to read generated SCIP file metadata", failed.message);

    let runtime = to_protocol_error(McpError::server_runtime("boom".to_owned()));
    assert_eq!(ProtocolErrorCode::InternalError, runtime.code);
}

#[test]
fn from_conversion_gives_the_protocol_answer() {
    let converted = ProtocolError::from(McpError::missing_span("span-1".to_owned()));
    let answered = to_protocol_error(McpError::missing_span("span-1".to_owned()));
    assert_eq!(answered, converted);
    assert_eq!(ProtocolErrorCode::ResourceNotFound, converted.code);
    assert_eq!("requested RefactorRadar source span was not found", converted.message);
}

#[test]
fn scip_errors_map_to_protocol_codes_and_details() {
    let unknown = scip_to_protocol_error(ScipError::unknown_format("x.data".to_owned()));
    assert_eq!(ProtocolErrorCode::InvalidParams, unknown.code);
    assert_eq!("SCIP input format could not be detected from extension", unknown.message);

    let failed = scip_to_protocol_error(ScipError::rust_analyzer_failed(Some(7), "failed".to_owned()));
    assert_eq!(ProtocolErrorCode::InternalError, failed.code);
    assert_eq!(
        Details::Two(
            DetailField { key: "status", value: DetailValue::Status(Some(7)) },
            DetailField { key: "stderr", value: DetailValue::Text("failed".to_owned()) },
        ),
        failed.data
    );

    let projection = scip_to_protocol_error(ScipError::core_projection_failed());
    assert_eq!(Details::Absent, projection.data);
}

#[test]
fn error_messages_come_from_the_variant() {
    assert_eq!("requested RefactorRadar symbol was not found", McpError::missing_symbol("x".to_owned()).message());
    assert_eq!("RefactorRadar report generation failed", McpError::report_generation_failed("x".to_owned()).message());
    assert_eq!("rust-analyzer executable was not found", ScipError::rust_analyzer_missing("ra".to_owned()).message());
    assert_eq!("failed to parse SCIP protobuf JSON", ScipError::parse_failed("p".to_owned(), "failed to parse SCIP protobuf JSON").message());
}
