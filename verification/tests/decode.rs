use protobuf::Message;
use refactor_radar::decode::ScipError;
use refactor_radar::decode_scip_from_bytes;

#[test]
fn invalid_bytes_return_decode_error() {
    let error = decode_scip_from_bytes(&[0xff]).unwrap_err();

    assert_eq!(error.message(), "failed to decode SCIP file");
}

#[test]
fn valid_index_bytes_decode_to_the_same_index() {
    let mut index = scip::types::Index::new();
    let mut document = scip::types::Document::new();
    document.relative_path = "src/lib.rs".to_owned();
    index.documents.push(document);
    let bytes = index.write_to_bytes().expect("index serializes");

    let decoded = decode_scip_from_bytes(&bytes).expect("index decodes");

    assert_eq!(1, decoded.documents.len());
    assert_eq!("src/lib.rs", decoded.documents[0].relative_path);
}

#[test]
fn read_error_reports_read_message() {
    let error = ScipError::read("missing.scip".to_owned(), "not found".to_owned());

    assert_eq!(error.message(), "failed to read SCIP file");
}
