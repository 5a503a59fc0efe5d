//! Errors of loading, generating and projecting SCIP indexes.
use vstd::prelude::*;

verus! {

/// A failure while detecting, generating, reading, parsing or projecting a SCIP index.
/// Paths are held as their display text.
#[derive(Debug)]
pub enum ScipError {
    UnknownFormat { message: &'static str, path: String },
    RustAnalyzerMissing { message: &'static str, executable: String },
    RustAnalyzerLaunchFailed { message: &'static str, executable: String, details: String },
    RustAnalyzerFailed { message: &'static str, status: Option<i32>, stderr: String },
    ReadFailed { message: &'static str, path: String },
    ParseFailed { message: &'static str, path: String },
    CoreProjectionFailed { message: &'static str },
}

/// The message that a SCIP error carries.
pub open spec fn scip_error_message(error: ScipError) -> &'static str {
    match error {
        ScipError::UnknownFormat { message, .. } => message,
        ScipError::RustAnalyzerMissing { message, .. } => message,
        ScipError::RustAnalyzerLaunchFailed { message, .. } => message,
        ScipError::RustAnalyzerFailed { message, .. } => message,
        ScipError::ReadFailed { message, .. } => message,
        ScipError::ParseFailed { message, .. } => message,
        ScipError::CoreProjectionFailed { message } => message,
    }
}

impl ScipError {
    /// The input format could not be told from the path's extension.
    pub fn unknown_format(path: String) -> (r: Self)
        ensures
            r == (ScipError::UnknownFormat {
                message: "SCIP input format could not be detected from extension",
                path,
            }),
    {
        ScipError::UnknownFormat {
            message: "SCIP input format could not be detected from extension",
            path,
        }
    }

    /// The rust-analyzer executable does not exist.
    pub fn rust_analyzer_missing(executable: String) -> (r: Self)
        ensures
            r == (ScipError::RustAnalyzerMissing {
                message: "rust-analyzer executable was not found",
                executable,
            }),
    {
        ScipError::RustAnalyzerMissing { message: "rust-analyzer executable was not found", executable }
    }

    /// The rust-analyzer executable exists but could not be started.
    pub fn rust_analyzer_launch_failed(executable: String, details: String) -> (r: Self)
        ensures
            r == (ScipError::RustAnalyzerLaunchFailed {
                message: "rust-analyzer executable could not be launched",
                executable,
                details,
            }),
    {
        ScipError::RustAnalyzerLaunchFailed {
            message: "rust-analyzer executable could not be launched",
            executable,
            details,
        }
    }

    /// `rust-analyzer scip` ran and exited with a failure status.
    pub fn rust_analyzer_failed(status: Option<i32>, stderr: String) -> (r: Self)
        ensures
            r == (ScipError::RustAnalyzerFailed {
                message: "rust-analyzer scip exited unsuccessfully",
                status,
                stderr,
            }),
    {
        ScipError::RustAnalyzerFailed {
            message: "rust-analyzer scip exited unsuccessfully",
            status,
            stderr,
        }
    }

    /// The SCIP input file could not be read.
    pub fn read_failed(path: String) -> (r: Self)
        ensures
            r == (ScipError::ReadFailed { message: "failed to read SCIP input file", path }),
    {
        ScipError::ReadFailed { message: "failed to read SCIP input file", path }
    }

    /// The SCIP input file could not be parsed; `message` says in which format.
    pub fn parse_failed(path: String, message: &'static str) -> (r: Self)
        ensures
            r == (ScipError::ParseFailed { message, path }),
    {
        ScipError::ParseFailed { message, path }
    }

    /// A SCIP source range could not be projected into the core model.
    pub fn core_projection_failed() -> (r: Self)
        ensures
            r == (ScipError::CoreProjectionFailed { message: "failed to project SCIP source range" }),
    {
        ScipError::CoreProjectionFailed { message: "failed to project SCIP source range" }
    }

    /// The error's message.
    pub fn message(&self) -> (r: &'static str)
        ensures
            r == scip_error_message(*self),
    {
        match self {
            ScipError::UnknownFormat { message, .. } => message,
            ScipError::RustAnalyzerMissing { message, .. } => message,
            ScipError::RustAnalyzerLaunchFailed { message, .. } => message,
            ScipError::RustAnalyzerFailed { message, .. } => message,
            ScipError::ReadFailed { message, .. } => message,
            ScipError::ParseFailed { message, .. } => message,
            ScipError::CoreProjectionFailed { message } => message,
        }
    }
}

} // verus!
