use protobuf::Message;
use refactor_radar::scip_error::ScipError;
use refactor_radar::scip_index::parse_scip_index;
use refactor_radar::Format;

fn sample_index() -> scip::types::Index {
    let mut index = scip::types::Index::new();
    let mut document = scip::types::Document::new();
    document.relative_path = "src/lib.rs".to_owned();
    index.documents.push(document);
    index
}

#[test]
fn scip_extension_names_binary_format() {
    assert!(matches!(Format::detect("fixture.scip", Some("scip")), Ok(Format::Binary)));
}

#[test]
fn json_extension_names_json_format() {
    assert!(matches!(Format::detect("fixture.json", Some("json")), Ok(Format::Json)));
}

#[test]
fn unknown_or_missing_extension_is_unknown_format_error() {
    let error = Format::detect("fixture.data", Some("data")).err();
    match error {
        Some(ScipError::UnknownFormat { message, path }) => {
            assert_eq!("SCIP input format could not be detected from extension", message);
            assert_eq!("fixture.data", path);
        }
        other => panic!("unexpected result: {:?}", other),
    }
    assert!(matches!(Format::detect("fixture", None), Err(ScipError::UnknownFormat { .. })));
    assert!(matches!(Format::detect("fixture.SCIP", Some("SCIP")), Err(ScipError::UnknownFormat { .. })));
}

#[test]
fn binary_index_parses_in_binary_format() {
    let bytes = sample_index().write_to_bytes().expect("index serializes");

    let index = parse_scip_index("fixture.scip", &bytes, Format::Binary).expect("index parses");

    assert_eq!("src/lib.rs", index.documents[0].relative_path);
}

#[test]
fn json_index_parses_in_json_format() {
    let json = protobuf_json_mapping::print_to_string(&sample_index()).expect("index prints");

    let index = parse_scip_index("fixture.json", json.as_bytes(), Format::Json).expect("index parses");

    assert_eq!(1, index.documents.len());
    assert_eq!("src/lib.rs", index.documents[0].relative_path);
}

#[test]
fn unparsable_inputs_are_parse_failures_naming_the_format() {
    match parse_scip_index("bad.scip", &[0xff], Format::Binary) {
        Err(ScipError::ParseFailed { message, path }) => {
            assert_eq!("failed to parse binary SCIP protobuf", message);
            assert_eq!("bad.scip", path);
        }
        other => panic!("unexpected result: {:?}", other.map(|_| ())),
    }
    match parse_scip_index("bad.json", b"not json", Format::Json) {
        Err(ScipError::ParseFailed { message, path }) => {
            assert_eq!("failed to parse SCIP protobuf JSON", message);
            assert_eq!("bad.json", path);
        }
        other => panic!("unexpected result: {:?}", other.map(|_| ())),
    }
}
