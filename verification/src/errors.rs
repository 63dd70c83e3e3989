//! The error taxonomy of the tool.
//!
//! Per-file failures carry the path of the file they concern; writer and
//! I/O failures carry the reporting library's message as plain text, so
//! that the taxonomy stays free of foreign error types.

use vstd::prelude::*;

verus! {

/// Everything the tool can fail with. An invalid input path and a failure
/// to create the output directory are fatal to the run; the per-file
/// errors end their worker and surface as the run's first error.
pub enum CliError {
    /// A file could not be read or analysed.
    FailedProcessing(String),
    /// No language could be guessed for a file.
    FailedGuessLang(String),
    /// The JSON writer failed.
    SerdeError(String),
    /// A file or the output directory could not be created.
    FileCreationError(String),
    /// The CSV writer failed.
    CSVError(String),
    /// `--path` names neither a file nor a directory.
    InvalidInputPath(String),
    /// Any other failure, reported as its plain message.
    Other(String),
}

/// The user-facing message of an error.
pub open spec fn spec_message(e: CliError) -> Seq<char> {
    match e {
        CliError::FailedProcessing(p) => "FailedProcessingError: Failed to process: "@ + p@,
        CliError::FailedGuessLang(p) => "Failed to guess programming lang of "@ + p@,
        CliError::SerdeError(m) => "Failed to create JSON: "@ + m@,
        CliError::FileCreationError(m) => "Failed to create file: "@ + m@,
        CliError::CSVError(m) => "Failed to create CSV: "@ + m@,
        CliError::InvalidInputPath(p) => "The provided path is not a file or a dir: "@ + p@,
        CliError::Other(m) => m@,
    }
}

impl CliError {
    /// Render the error as its user-facing message.
    pub fn message(&self) -> (msg: String)
        ensures
            msg@ == spec_message(*self),
    {
        match self {
            CliError::FailedProcessing(p) => {
                let mut m = "FailedProcessingError: Failed to process: ".to_owned();
                m.append(p.as_str());
                m
            },
            CliError::FailedGuessLang(p) => {
                let mut m = "Failed to guess programming lang of ".to_owned();
                m.append(p.as_str());
                m
            },
            CliError::SerdeError(s) => {
                let mut m = "Failed to create JSON: ".to_owned();
                m.append(s.as_str());
                m
            },
            CliError::FileCreationError(s) => {
                let mut m = "Failed to create file: ".to_owned();
                m.append(s.as_str());
                m
            },
            CliError::CSVError(s) => {
                let mut m = "Failed to create CSV: ".to_owned();
                m.append(s.as_str());
                m
            },
            CliError::InvalidInputPath(p) => {
                let mut m = "The provided path is not a file or a dir: ".to_owned();
                m.append(p.as_str());
                m
            },
            CliError::Other(s) => s.clone(),
        }
    }
}

} // verus!
