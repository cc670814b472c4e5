//! The application's errors, and how each is presented to the user.
use vstd::prelude::*;
use vstd::string::*;

verus! {

/// std::io::Error, carried through opaque.
#[verifier::external_type_specification]
#[verifier::external_body]
pub struct ExIoError(std::io::Error);

/// Relies on the `Display` of std::io::Error, whose text comes from the
/// system.
#[verifier::external_body]
fn io_error_text(e: &std::io::Error) -> (r: String) {
    e.to_string()
}

/// Relies on the `Display` of serde_json::Error: its description, with line
/// and column; an I/O error inside it shows the system's text.
#[verifier::external_body]
fn json_error_text(e: &serde_json::Error) -> (r: String) {
    e.to_string()
}

#[derive(Debug)]
pub enum AppError {
    ConfigError(String),
    ExecutorError(String),
    IoError(std::io::Error),
    JsonError(serde_json::Error),
    ProcessError(String),
    CommunicationError(String),
    StateError(String),
    ValidationError(String),
    UnexpectedError(String),
}

#[derive(Clone, Copy, Debug, PartialEq, Eq, Structural)]
pub enum ErrorSeverity {
    Info,
    Warning,
    Error,
    Critical,
}

/// An error as the user sees it.
#[derive(Clone, Debug)]
pub struct UserFacingError {
    pub title: String,
    pub message: String,
    pub details: Option<String>,
    pub error_code: String,
    pub severity: ErrorSeverity,
    pub recoverable: bool,
    pub suggested_action: Option<String>,
}

/// The fixed parts of how an error is presented.
pub struct Presentation {
    pub title: Seq<char>,
    pub message: Seq<char>,
    pub code: Seq<char>,
    pub severity: ErrorSeverity,
    pub recoverable: bool,
    pub action: Seq<char>,
}

pub open spec fn presentation(e: AppError) -> Presentation {
    match e {
        AppError::ConfigError(_) => Presentation {
            title: "Configuration Error"@,
            message: "There was a problem with your configuration file."@,
            code: "CONFIG_001"@,
            severity: ErrorSeverity::Error,
            recoverable: true,
            action: "Please check your configuration file and try again."@,
        },
        AppError::ExecutorError(_) => Presentation {
            title: "Executor Error"@,
            message: "The automation executor encountered a problem."@,
            code: "EXEC_001"@,
            severity: ErrorSeverity::Warning,
            recoverable: true,
            action: "Try restarting the executor or check your Python installation."@,
        },
        AppError::IoError(_) => Presentation {
            title: "File System Error"@,
            message: "Unable to access required files."@,
            code: "IO_001"@,
            severity: ErrorSeverity::Error,
            recoverable: false,
            action: "Check file permissions and disk space."@,
        },
        AppError::JsonError(_) => Presentation {
            title: "Data Format Error"@,
            message: "Unable to parse data format."@,
            code: "JSON_001"@,
            severity: ErrorSeverity::Warning,
            recoverable: true,
            action: "The data format may be corrupted. Try reloading."@,
        },
        AppError::ProcessError(_) => Presentation {
            title: "Process Error"@,
            message: "A background process failed."@,
            code: "PROC_001"@,
            severity: ErrorSeverity::Error,
            recoverable: true,
            action: "Restart the application or check system resources."@,
        },
        AppError::CommunicationError(_) => Presentation {
            title: "Communication Error"@,
            message: "Unable to communicate with the automation engine."@,
            code: "COMM_001"@,
            severity: ErrorSeverity::Warning,
            recoverable: true,
            action: "Check your network connection and try again."@,
        },
        AppError::StateError(_) => Presentation {
            title: "State Error"@,
            message: "The application is in an invalid state."@,
            code: "STATE_001"@,
            severity: ErrorSeverity::Warning,
            recoverable: true,
            action: "Try restarting the current operation."@,
        },
        AppError::ValidationError(_) => Presentation {
            title: "Validation Error"@,
            message: "The provided input is invalid."@,
            code: "VAL_001"@,
            severity: ErrorSeverity::Info,
            recoverable: true,
            action: "Please check your input and try again."@,
        },
        AppError::UnexpectedError(_) => Presentation {
            title: "Unexpected Error"@,
            message: "An unexpected error occurred."@,
            code: "UNK_001"@,
            severity: ErrorSeverity::Critical,
            recoverable: false,
            action: "Please restart the application. If the problem persists, contact support."@,
        },
    }
}

/// The text that an error carries itself, for the variants that carry one;
/// the others take it from the wrapped error, whose text may come from the
/// system.
pub open spec fn carried_text(e: AppError) -> Option<Seq<char>> {
    match e {
        AppError::ConfigError(m) => Some(m@),
        AppError::ExecutorError(m) => Some(m@),
        AppError::ProcessError(m) => Some(m@),
        AppError::CommunicationError(m) => Some(m@),
        AppError::StateError(m) => Some(m@),
        AppError::ValidationError(m) => Some(m@),
        AppError::UnexpectedError(m) => Some(m@),
        AppError::IoError(_) => None,
        AppError::JsonError(_) => None,
    }
}

/// The prefix of an error's own message, before the text it carries.
pub open spec fn message_prefix(e: AppError) -> Seq<char> {
    match e {
        AppError::ConfigError(_) => "Configuration error: "@,
        AppError::ExecutorError(_) => "Python executor error: "@,
        AppError::IoError(_) => "IO error: "@,
        AppError::JsonError(_) => "JSON parsing error: "@,
        AppError::ProcessError(_) => "Process error: "@,
        AppError::CommunicationError(_) => "Communication error: "@,
        AppError::StateError(_) => "State error: "@,
        AppError::ValidationError(_) => "Validation error: "@,
        AppError::UnexpectedError(_) => "Unexpected error: "@,
    }
}

fn user_facing(p: (&str, &str, &str, ErrorSeverity, bool, &str), details: String) -> (r: UserFacingError)
    ensures
        r.title@ == p.0@,
        r.message@ == p.1@,
        r.error_code@ == p.2@,
        r.severity == p.3,
        r.recoverable == p.4,
        r.suggested_action matches Some(a) && a@ == p.5@,
        r.details == Some(details),
{
    UserFacingError {
        title: String::from_str(p.0),
        message: String::from_str(p.1),
        details: Some(details),
        error_code: String::from_str(p.2),
        severity: p.3,
        recoverable: p.4,
        suggested_action: Some(String::from_str(p.5)),
    }
}

impl AppError {
    /// The text this error carries, or that the wrapped error gives.
    fn detail(&self) -> (r: String)
        ensures
            carried_text(*self) matches Some(t) ==> r@ == t,
    {
        match self {
            AppError::ConfigError(m) => m.clone(),
            AppError::ExecutorError(m) => m.clone(),
            AppError::IoError(e) => io_error_text(e),
            AppError::JsonError(e) => json_error_text(e),
            AppError::ProcessError(m) => m.clone(),
            AppError::CommunicationError(m) => m.clone(),
            AppError::StateError(m) => m.clone(),
            AppError::ValidationError(m) => m.clone(),
            AppError::UnexpectedError(m) => m.clone(),
        }
    }

    /// The error's own message: a prefix that names its kind, then its text.
    pub fn message(&self) -> (r: String)
        ensures
            r@.len() >= message_prefix(*self).len(),
            r@.take(message_prefix(*self).len() as int) == message_prefix(*self),
            carried_text(*self) matches Some(t) ==> r@ == message_prefix(*self) + t,
    {
        let prefix = match self {
            AppError::ConfigError(_) => "Configuration error: ",
            AppError::ExecutorError(_) => "Python executor error: ",
            AppError::IoError(_) => "IO error: ",
            AppError::JsonError(_) => "JSON parsing error: ",
            AppError::ProcessError(_) => "Process error: ",
            AppError::CommunicationError(_) => "Communication error: ",
            AppError::StateError(_) => "State error: ",
            AppError::ValidationError(_) => "Validation error: ",
            AppError::UnexpectedError(_) => "Unexpected error: ",
        };
        let d = self.detail();
        let r = String::from_str(prefix).concat(d.as_str());
        assert(r@.take(prefix@.len() as int) =~= prefix@);
        r
    }

    /// How the error is presented to the user: a fixed title, message, code,
    /// severity, recoverability and suggested action for each kind, with the
    /// error's text as the details.
    pub fn to_user_facing(&self) -> (r: UserFacingError)
        ensures
            r.title@ == presentation(*self).title,
            r.message@ == presentation(*self).message,
            r.error_code@ == presentation(*self).code,
            r.severity == presentation(*self).severity,
            r.recoverable == presentation(*self).recoverable,
            r.suggested_action matches Some(a) && a@ == presentation(*self).action,
            r.details is Some,
            carried_text(*self) matches Some(t) ==> r.details->0@ == t,
    {
        let d = self.detail();
        match self {
            AppError::ConfigError(_) => user_facing(
                (
                    "Configuration Error",
                    "There was a problem with your configuration file.",
                    "CONFIG_001",
                    ErrorSeverity::Error,
                    true,
                    "Please check your configuration file and try again.",
                ),
                d,
            ),
            AppError::ExecutorError(_) => user_facing(
                (
                    "Executor Error",
                    "The automation executor encountered a problem.",
                    "EXEC_001",
                    ErrorSeverity::Warning,
                    true,
                    "Try restarting the executor or check your Python installation.",
                ),
                d,
            ),
            AppError::IoError(_) => user_facing(
                (
                    "File System Error",
                    "Unable to access required files.",
                    "IO_001",
                    ErrorSeverity::Error,
                    false,
                    "Check file permissions and disk space.",
                ),
                d,
            ),
            AppError::JsonError(_) => user_facing(
                (
                    "Data Format Error",
                    "Unable to parse data format.",
                    "JSON_001",
                    ErrorSeverity::Warning,
                    true,
                    "The data format may be corrupted. Try reloading.",
                ),
                d,
            ),
            AppError::ProcessError(_) => user_facing(
                (
                    "Process Error",
                    "A background process failed.",
                    "PROC_001",
                    ErrorSeverity::Error,
                    true,
                    "Restart the application or check system resources.",
                ),
                d,
            ),
            AppError::CommunicationError(_) => user_facing(
                (
                    "Communication Error",
                    "Unable to communicate with the automation engine.",
                    "COMM_001",
                    ErrorSeverity::Warning,
                    true,
                    "Check your network connection and try again.",
                ),
                d,
            ),
            AppError::StateError(_) => user_facing(
                (
                    "State Error",
                    "The application is in an invalid state.",
                    "STATE_001",
                    ErrorSeverity::Warning,
                    true,
                    "Try restarting the current operation.",
                ),
                d,
            ),
            AppError::ValidationError(_) => user_facing(
                (
                    "Validation Error",
                    "The provided input is invalid.",
                    "VAL_001",
                    ErrorSeverity::Info,
                    true,
                    "Please check your input and try again.",
                ),
                d,
            ),
            AppError::UnexpectedError(_) => user_facing(
                (
                    "Unexpected Error",
                    "An unexpected error occurred.",
                    "UNK_001",
                    ErrorSeverity::Critical,
                    false,
                    "Please restart the application. If the problem persists, contact support.",
                ),
                d,
            ),
        }
    }
}

impl UserFacingError {
    /// The one-line form: `[code] title: message`.
    pub fn to_display_string(&self) -> (r: String)
        ensures
            r@ == "["@ + self.error_code@ + "] "@ + self.title@ + ": "@ + self.message@,
    {
        let mut out = String::from_str("[");
        out.append(self.error_code.as_str());
        out.append("] ");
        out.append(self.title.as_str());
        out.append(": ");
        out.append(self.message.as_str());
        out
    }
}

} // verus!
