use refactor_radar::indexer::{indexer_arguments, indexer_outcome, IndexerRun};
use refactor_radar::scip_error::ScipError;

#[test]
fn indexer_arguments_name_project_output_and_options() {
    assert_eq!(
        vec!["scip", "/tmp/project", "--output", "/tmp/out.scip"],
        indexer_arguments("/tmp/project", "/tmp/out.scip", None, false)
    );
    assert_eq!(
        vec![
            "scip",
            "/tmp/project",
            "--output",
            "/tmp/out.scip",
            "--config-path",
            "/tmp/ra.json",
            "--exclude-vendored-libraries",
        ],
        indexer_arguments("/tmp/project", "/tmp/out.scip", Some("/tmp/ra.json"), true)
    );
}

#[test]
fn missing_rust_analyzer_is_a_missing_executable_error() {
    match indexer_outcome("missing-rust-analyzer".to_owned(), IndexerRun::NotFound) {
        Err(ScipError::RustAnalyzerMissing { message, executable }) => {
            assert_eq!("rust-analyzer executable was not found", message);
            assert_eq!("missing-rust-analyzer", executable);
        }
        other => panic!("unexpected outcome: {:?}", other),
    }
}

#[test]
fn launch_failure_keeps_its_details() {
    let run = IndexerRun::LaunchFailed { details: "Permission denied (os error 13)".to_owned() };
    match indexer_outcome("ra-not-executable".to_owned(), run) {
        Err(ScipError::RustAnalyzerLaunchFailed { executable, details, .. }) => {
            assert_eq!("ra-not-executable", executable);
            assert_eq!("Permission denied (os error 13)", details);
        }
        other => panic!("unexpected outcome: {:?}", other),
    }
}

#[test]
fn nonzero_exit_captures_stderr_and_success_returns_it() {
    let failed = IndexerRun::Finished { success: false, status: Some(7), stderr: "failed\n".to_owned() };
    match indexer_outcome("ra-fails".to_owned(), failed) {
        Err(ScipError::RustAnalyzerFailed { status, stderr, .. }) => {
            assert_eq!(Some(7), status);
            assert!(stderr.contains("failed"));
        }
        other => panic!("unexpected outcome: {:?}", other),
    }

    let indexed = IndexerRun::Finished { success: true, status: Some(0), stderr: "indexed\n".to_owned() };
    assert_eq!("indexed\n", indexer_outcome("ra".to_owned(), indexed).expect("indexed"));
}
