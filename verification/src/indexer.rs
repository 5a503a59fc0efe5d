//! Running `rust-analyzer scip`: the command line it is given and how its ending is read.
use vstd::prelude::*;

use crate::scip_error::ScipError;
use crate::text::{owned, texts};

verus! {

/// The executable run when no rust-analyzer path is configured.
pub const DEFAULT_RUST_ANALYZER: &'static str = "rust-analyzer";

/// How a rust-analyzer run ended: the executable was not found, could not be started (with
/// the launch error's text), or ran to an exit status (with whether it succeeded, its code
/// when it has one, and what it wrote to stderr).
#[derive(Clone, Debug, PartialEq, Eq)]
pub enum IndexerRun {
    NotFound,
    LaunchFailed { details: String },
    Finished { success: bool, status: Option<i32>, stderr: String },
}

/// The arguments of `rust-analyzer scip` for a project: the subcommand, the project, the
/// output file, then the configuration file and the vendored-library switch when asked for.
pub open spec fn indexer_argument_texts(
    project: Seq<char>,
    output: Seq<char>,
    config: Option<Seq<char>>,
    exclude_vendored: bool,
) -> Seq<Seq<char>> {
    seq!["scip"@, project, "--output"@, output] + (match config {
        Some(c) => seq!["--config-path"@, c],
        None => Seq::empty(),
    }) + (if exclude_vendored {
        seq!["--exclude-vendored-libraries"@]
    } else {
        Seq::empty()
    })
}

/// The command-line arguments for indexing `project` into `output`.
pub fn indexer_arguments(project: &str, output: &str, config: Option<&str>, exclude_vendored: bool) -> (r: Vec<String>)
    ensures
        texts(r@) == indexer_argument_texts(project@, output@, match config {
            Some(c) => Some(c@),
            None => None,
        }, exclude_vendored),
{
    let mut out: Vec<String> = Vec::new();
    out.push(owned("scip"));
    out.push(owned(project));
    out.push(owned("--output"));
    out.push(owned(output));
    assert(texts(out@) =~= seq!["scip"@, project@, "--output"@, output@]);
    match config {
        Some(c) => {
            out.push(owned("--config-path"));
            out.push(owned(c));
        },
        None => {},
    }
    if exclude_vendored {
        out.push(owned("--exclude-vendored-libraries"));
    }
    assert(texts(out@) =~= indexer_argument_texts(project@, output@, match config {
        Some(c) => Some(c@),
        None => None,
    }, exclude_vendored));
    out
}

/// What a generation answers for a run of `executable`: its stderr when it succeeded; a
/// missing-executable, launch or failed-run error otherwise.
pub fn indexer_outcome(executable: String, run: IndexerRun) -> (r: Result<String, ScipError>)
    ensures
        match run {
            IndexerRun::NotFound => r == Err::<String, ScipError>(ScipError::RustAnalyzerMissing {
                message: "rust-analyzer executable was not found",
                executable,
            }),
            IndexerRun::LaunchFailed { details } => r == Err::<String, ScipError>(ScipError::RustAnalyzerLaunchFailed {
                message: "rust-analyzer executable could not be launched",
                executable,
                details,
            }),
            IndexerRun::Finished { success, status, stderr } => if success {
                r == Ok::<String, ScipError>(stderr)
            } else {
                r == Err::<String, ScipError>(ScipError::RustAnalyzerFailed {
                    message: "rust-analyzer scip exited unsuccessfully",
                    status,
                    stderr,
                })
            },
        },
{
    match run {
        IndexerRun::NotFound => Err(ScipError::rust_analyzer_missing(executable)),
        IndexerRun::LaunchFailed { details } => Err(ScipError::rust_analyzer_launch_failed(executable, details)),
        IndexerRun::Finished { success, status, stderr } => {
            if success {
                Ok(stderr)
            } else {
                Err(ScipError::rust_analyzer_failed(status, stderr))
            }
        },
    }
}

} // verus!
