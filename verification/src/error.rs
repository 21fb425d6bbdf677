//! The errors that stop a run before its cases are checked.

use vstd::prelude::*;
use vstd::string::*;

verus! {

/// Why a run could not start or could not go on. The messages describe the
/// underlying error as it prints.
#[derive(Debug, Clone, PartialEq, Eq)]
pub enum ApplicationError {
    SuiteIoError { message: String },
    SuiteYamlError { message: String },
    SuiteIsDirectory { path: String },
    DirectoryIoError { message: String },
    NoSuitesFound,
    SendMessageError,
    WorkerError { message: String },
}

/// The result type of a run's operations.
pub type ApplicationResult<T> = Result<T, ApplicationError>;

/// How an error prints.
pub open spec fn error_text(e: ApplicationError) -> Seq<char> {
    match e {
        ApplicationError::SuiteIoError { message } => "IO error - "@ + message@,
        ApplicationError::SuiteYamlError { message } => "YAML error - "@ + message@,
        ApplicationError::SuiteIsDirectory { path } => "Is directory - "@ + path@,
        ApplicationError::DirectoryIoError { message } => "IO error - "@ + message@,
        ApplicationError::NoSuitesFound => "No suites found"@,
        ApplicationError::SendMessageError => "Send error, channel already closed"@,
        ApplicationError::WorkerError { message } => "Worker error - "@ + message@,
    }
}

/// The short description of an error's kind.
pub open spec fn error_description(e: ApplicationError) -> Seq<char> {
    match e {
        ApplicationError::SuiteIoError { .. } => "Suite IO error"@,
        ApplicationError::SuiteYamlError { .. } => "Suite YAML error"@,
        ApplicationError::SuiteIsDirectory { .. } => "Suite is directory"@,
        ApplicationError::DirectoryIoError { .. } => "Directory IO error"@,
        ApplicationError::NoSuitesFound => "No suites found"@,
        ApplicationError::SendMessageError => "Send message error"@,
        ApplicationError::WorkerError { .. } => "Worker error"@,
    }
}

impl ApplicationError {
    /// A suite file could not be read; `error` is how the read error prints.
    pub fn suite_io_error(error: &str) -> (e: ApplicationError)
        ensures
            e matches ApplicationError::SuiteIoError { message } && message@ == error@,
    {
        ApplicationError::SuiteIoError { message: error.to_owned() }
    }

    /// A suite file is not a valid suite; `error` is how the parse error prints.
    pub fn suite_yaml_error(error: &str) -> (e: ApplicationError)
        ensures
            e matches ApplicationError::SuiteYamlError { message } && message@ == error@,
    {
        ApplicationError::SuiteYamlError { message: error.to_owned() }
    }

    /// A suite path names a directory, and directories are not searched.
    pub fn suite_is_directory(path: &str) -> (e: ApplicationError)
        ensures
            e matches ApplicationError::SuiteIsDirectory { path: p } && p@ == path@,
    {
        ApplicationError::SuiteIsDirectory { path: path.to_owned() }
    }

    /// A directory could not be searched; `error` is how the read error prints.
    pub fn directory_io_error(error: &str) -> (e: ApplicationError)
        ensures
            e matches ApplicationError::DirectoryIoError { message } && message@ == error@,
    {
        ApplicationError::DirectoryIoError { message: error.to_owned() }
    }

    pub fn no_suites_found() -> (e: ApplicationError)
        ensures
            e == ApplicationError::NoSuitesFound,
    {
        ApplicationError::NoSuitesFound
    }

    /// A message could not be handed to the workers: the channel is closed.
    pub fn send_message_error() -> (e: ApplicationError)
        ensures
            e == ApplicationError::SendMessageError,
    {
        ApplicationError::SendMessageError
    }

    /// A worker could not start; `error` is how its error prints.
    pub fn worker_error(error: &str) -> (e: ApplicationError)
        ensures
            e matches ApplicationError::WorkerError { message } && message@ == error@,
    {
        ApplicationError::WorkerError { message: error.to_owned() }
    }

    /// How the error prints.
    pub fn message(&self) -> (s: String)
        ensures
            s@ == error_text(*self),
    {
        match self {
            ApplicationError::SuiteIoError { message } => {
                let mut s = "IO error - ".to_owned();
                s.append(message.as_str());
                s
            },
            ApplicationError::SuiteYamlError { message } => {
                let mut s = "YAML error - ".to_owned();
                s.append(message.as_str());
                s
            },
            ApplicationError::SuiteIsDirectory { path } => {
                let mut s = "Is directory - ".to_owned();
                s.append(path.as_str());
                s
            },
            ApplicationError::DirectoryIoError { message } => {
                let mut s = "IO error - ".to_owned();
                s.append(message.as_str());
                s
            },
            ApplicationError::NoSuitesFound => "No suites found".to_owned(),
            ApplicationError::SendMessageError => "Send error, channel already closed".to_owned(),
            ApplicationError::WorkerError { message } => {
                let mut s = "Worker error - ".to_owned();
                s.append(message.as_str());
                s
            },
        }
    }

    /// The short description of the error's kind.
    pub fn description(&self) -> (s: &'static str)
        ensures
            s@ == error_description(*self),
    {
        match self {
            ApplicationError::SuiteIoError { .. } => "Suite IO error",
            ApplicationError::SuiteYamlError { .. } => "Suite YAML error",
            ApplicationError::SuiteIsDirectory { .. } => "Suite is directory",
            ApplicationError::DirectoryIoError { .. } => "Directory IO error",
            ApplicationError::NoSuitesFound => "No suites found",
            ApplicationError::SendMessageError => "Send message error",
            ApplicationError::WorkerError { .. } => "Worker error",
        }
    }
}

} // verus!
