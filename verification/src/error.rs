//! The failures of the application by kind, each with a code, a severity and
//! a line of text.

use vstd::prelude::*;
use vstd::string::*;
use crate::text::{concat2, concat3};
use crate::types::ErrorText;

verus! {

/// A failure, by kind, with what is known of it.
#[derive(Debug)]
pub enum SyntariError {
    Initialization(String),
    Configuration(String),
    AiProviderUnavailable(String),
    AiRequestFailed(String),
    AiResponseInvalid(String),
    CostLimitExceeded(String),
    FileNotFound(String),
    FileAccessDenied(String),
    DirectoryNotFound(String),
    DirectoryAccessDenied(String),
    ProjectLoadFailed(String),
    ProjectAnalysisFailed(String),
    UnsupportedProjectType(String),
    SessionNotFound(String),
    SessionCreateFailed(String),
    MessageSendFailed(String),
    NetworkTimeout(String),
    NetworkUnavailable(String),
    ApiError(String),
    InvalidInput(String),
    ValidationFailed(String),
    AuthenticationFailed(String),
    AuthorizationFailed(String),
    SecurityViolation(String),
    Other(String),
}

/// A result whose failure is a `SyntariError`.
pub type Result<T> = std::result::Result<T, SyntariError>;

/// How a network failure came about.
#[derive(Debug, Clone, Copy, PartialEq, Eq, Structural)]
pub enum NetworkFailure {
    /// The request ran out of time.
    Timeout,
    /// No connection could be made.
    Connect,
    /// Anything else.
    Other,
}

impl SyntariError {
    /// What is known of the failure.
    pub open spec fn detail(&self) -> Seq<char> {
        match self {
            SyntariError::Initialization(m) => m@,
            SyntariError::Configuration(m) => m@,
            SyntariError::AiProviderUnavailable(m) => m@,
            SyntariError::AiRequestFailed(m) => m@,
            SyntariError::AiResponseInvalid(m) => m@,
            SyntariError::CostLimitExceeded(m) => m@,
            SyntariError::FileNotFound(m) => m@,
            SyntariError::FileAccessDenied(m) => m@,
            SyntariError::DirectoryNotFound(m) => m@,
            SyntariError::DirectoryAccessDenied(m) => m@,
            SyntariError::ProjectLoadFailed(m) => m@,
            SyntariError::ProjectAnalysisFailed(m) => m@,
            SyntariError::UnsupportedProjectType(m) => m@,
            SyntariError::SessionNotFound(m) => m@,
            SyntariError::SessionCreateFailed(m) => m@,
            SyntariError::MessageSendFailed(m) => m@,
            SyntariError::NetworkTimeout(m) => m@,
            SyntariError::NetworkUnavailable(m) => m@,
            SyntariError::ApiError(m) => m@,
            SyntariError::InvalidInput(m) => m@,
            SyntariError::ValidationFailed(m) => m@,
            SyntariError::AuthenticationFailed(m) => m@,
            SyntariError::AuthorizationFailed(m) => m@,
            SyntariError::SecurityViolation(m) => m@,
            SyntariError::Other(m) => m@,
        }
    }

    /// What the text of the failure begins with.
    pub open spec fn label(&self) -> Seq<char> {
        match self {
            SyntariError::Initialization(_) => "Initialization error: "@,
            SyntariError::Configuration(_) => "Configuration error: "@,
            SyntariError::AiProviderUnavailable(_) => "AI provider unavailable: "@,
            SyntariError::AiRequestFailed(_) => "AI request failed: "@,
            SyntariError::AiResponseInvalid(_) => "AI response invalid: "@,
            SyntariError::CostLimitExceeded(_) => "Cost limit exceeded: "@,
            SyntariError::FileNotFound(_) => "File not found: "@,
            SyntariError::FileAccessDenied(_) => "File access denied: "@,
            SyntariError::DirectoryNotFound(_) => "Directory not found: "@,
            SyntariError::DirectoryAccessDenied(_) => "Directory access denied: "@,
            SyntariError::ProjectLoadFailed(_) => "Project load failed: "@,
            SyntariError::ProjectAnalysisFailed(_) => "Project analysis failed: "@,
            SyntariError::UnsupportedProjectType(_) => "Unsupported project type: "@,
            SyntariError::SessionNotFound(_) => "Session not found: "@,
            SyntariError::SessionCreateFailed(_) => "Session create failed: "@,
            SyntariError::MessageSendFailed(_) => "Message send failed: "@,
            SyntariError::NetworkTimeout(_) => "Network timeout: "@,
            SyntariError::NetworkUnavailable(_) => "Network unavailable: "@,
            SyntariError::ApiError(_) => "API error: "@,
            SyntariError::InvalidInput(_) => "Invalid input: "@,
            SyntariError::ValidationFailed(_) => "Validation failed: "@,
            SyntariError::AuthenticationFailed(_) => "Authentication failed: "@,
            SyntariError::AuthorizationFailed(_) => "Authorization failed: "@,
            SyntariError::SecurityViolation(_) => "Security violation: "@,
            SyntariError::Other(_) => "Error: "@,
        }
    }

    /// The machine code of the kind.
    pub open spec fn code_text(&self) -> Seq<char> {
        match self {
            SyntariError::Initialization(_) => "INIT_ERROR"@,
            SyntariError::Configuration(_) => "CONFIG_ERROR"@,
            SyntariError::AiProviderUnavailable(_) => "AI_PROVIDER_UNAVAILABLE"@,
            SyntariError::AiRequestFailed(_) => "AI_REQUEST_FAILED"@,
            SyntariError::AiResponseInvalid(_) => "AI_RESPONSE_INVALID"@,
            SyntariError::CostLimitExceeded(_) => "COST_LIMIT_EXCEEDED"@,
            SyntariError::FileNotFound(_) => "FILE_NOT_FOUND"@,
            SyntariError::FileAccessDenied(_) => "FILE_ACCESS_DENIED"@,
            SyntariError::DirectoryNotFound(_) => "DIR_NOT_FOUND"@,
            SyntariError::DirectoryAccessDenied(_) => "DIR_ACCESS_DENIED"@,
            SyntariError::ProjectLoadFailed(_) => "PROJECT_LOAD_FAILED"@,
            SyntariError::ProjectAnalysisFailed(_) => "PROJECT_ANALYSIS_FAILED"@,
            SyntariError::UnsupportedProjectType(_) => "UNSUPPORTED_PROJECT_TYPE"@,
            SyntariError::SessionNotFound(_) => "SESSION_NOT_FOUND"@,
            SyntariError::SessionCreateFailed(_) => "SESSION_CREATE_FAILED"@,
            SyntariError::MessageSendFailed(_) => "MESSAGE_SEND_FAILED"@,
            SyntariError::NetworkTimeout(_) => "NETWORK_TIMEOUT"@,
            SyntariError::NetworkUnavailable(_) => "NETWORK_UNAVAILABLE"@,
            SyntariError::ApiError(_) => "API_ERROR"@,
            SyntariError::InvalidInput(_) => "INVALID_INPUT"@,
            SyntariError::ValidationFailed(_) => "VALIDATION_FAILED"@,
            SyntariError::AuthenticationFailed(_) => "AUTH_FAILED"@,
            SyntariError::AuthorizationFailed(_) => "AUTHZ_FAILED"@,
            SyntariError::SecurityViolation(_) => "SECURITY_VIOLATION"@,
            SyntariError::Other(_) => "UNKNOWN_ERROR"@,
        }
    }

    /// The failure is one of authentication, authorisation or security.
    pub open spec fn is_security(&self) -> bool {
        self is AuthenticationFailed || self is AuthorizationFailed || self is SecurityViolation
    }

    /// How grave the kind is.
    pub open spec fn severity_text(&self) -> Seq<char> {
        if self.is_security() {
            "critical"@
        } else if self is CostLimitExceeded || self is ProjectLoadFailed {
            "high"@
        } else if self is NetworkTimeout || self is AiProviderUnavailable {
            "medium"@
        } else {
            "low"@
        }
    }

    /// The failure of an input/output error with the text `description`: a
    /// file that was not found, access that was denied, or anything else.
    pub fn from_io(kind: crate::errors::IoFailure, description: &str) -> (e: Self)
        ensures
            e.detail() == description@,
            kind == crate::errors::IoFailure::NotFound ==> e is FileNotFound,
            kind == crate::errors::IoFailure::PermissionDenied ==> e is FileAccessDenied,
            kind != crate::errors::IoFailure::NotFound && kind
                != crate::errors::IoFailure::PermissionDenied ==> e is Other,
    {
        match kind {
            crate::errors::IoFailure::NotFound => SyntariError::FileNotFound(
                String::from_str(description),
            ),
            crate::errors::IoFailure::PermissionDenied => SyntariError::FileAccessDenied(
                String::from_str(description),
            ),
            _ => SyntariError::Other(String::from_str(description)),
        }
    }

    /// The failure of any other error with the text `description`.
    pub fn from_other(description: &str) -> (e: Self)
        ensures
            e is Other,
            e.detail() == description@,
    {
        SyntariError::Other(String::from_str(description))
    }

    /// The failure of an error of the JSON reader with the text
    /// `description`.
    pub fn from_json(description: &str) -> (e: Self)
        ensures
            e is ValidationFailed,
            e.detail() == "JSON parsing error: "@ + description@,
    {
        SyntariError::ValidationFailed(concat2("JSON parsing error: ", description))
    }

    /// The failure of a network error with the text `description`.
    pub fn from_network(how: NetworkFailure, description: &str) -> (e: Self)
        ensures
            e.detail() == description@,
            how == NetworkFailure::Timeout ==> e is NetworkTimeout,
            how == NetworkFailure::Connect ==> e is NetworkUnavailable,
            how == NetworkFailure::Other ==> e is ApiError,
    {
        match how {
            NetworkFailure::Timeout => SyntariError::NetworkTimeout(String::from_str(description)),
            NetworkFailure::Connect => SyntariError::NetworkUnavailable(
                String::from_str(description),
            ),
            NetworkFailure::Other => SyntariError::ApiError(String::from_str(description)),
        }
    }

    /// A failure of the kind `Other` gets `context` before its text; any
    /// other failure is returned as it is.
    pub fn with_context(self, context: &str) -> (e: Self)
        ensures
            self is Other ==> e is Other && e.detail() == context@ + ": "@ + self.detail(),
            !(self is Other) ==> e == self,
    {
        match self {
            SyntariError::Other(m) => SyntariError::Other(concat3(context, ": ", m.as_str())),
            other => other,
        }
    }

    /// Whether a retry can help: not after a failure of authentication,
    /// authorisation or security.
    pub fn is_recoverable(&self) -> (r: bool)
        ensures
            r == !self.is_security(),
    {
        match self {
            SyntariError::AuthenticationFailed(_)
            | SyntariError::AuthorizationFailed(_)
            | SyntariError::SecurityViolation(_) => false,
            _ => true,
        }
    }

    /// How grave the failure is: `critical`, `high`, `medium` or `low`.
    pub fn severity(&self) -> (r: &'static str)
        ensures
            r@ == self.severity_text(),
    {
        match self {
            SyntariError::SecurityViolation(_)
            | SyntariError::AuthenticationFailed(_)
            | SyntariError::AuthorizationFailed(_) => "critical",
            SyntariError::CostLimitExceeded(_) | SyntariError::ProjectLoadFailed(_) => "high",
            SyntariError::NetworkTimeout(_) | SyntariError::AiProviderUnavailable(_) => "medium",
            _ => "low",
        }
    }

    /// The machine code of the failure.
    pub fn error_code(&self) -> (r: &'static str)
        ensures
            r@ == self.code_text(),
    {
        match self {
            SyntariError::Initialization(_) => "INIT_ERROR",
            SyntariError::Configuration(_) => "CONFIG_ERROR",
            SyntariError::AiProviderUnavailable(_) => "AI_PROVIDER_UNAVAILABLE",
            SyntariError::AiRequestFailed(_) => "AI_REQUEST_FAILED",
            SyntariError::AiResponseInvalid(_) => "AI_RESPONSE_INVALID",
            SyntariError::CostLimitExceeded(_) => "COST_LIMIT_EXCEEDED",
            SyntariError::FileNotFound(_) => "FILE_NOT_FOUND",
            SyntariError::FileAccessDenied(_) => "FILE_ACCESS_DENIED",
            SyntariError::DirectoryNotFound(_) => "DIR_NOT_FOUND",
            SyntariError::DirectoryAccessDenied(_) => "DIR_ACCESS_DENIED",
            SyntariError::ProjectLoadFailed(_) => "PROJECT_LOAD_FAILED",
            SyntariError::ProjectAnalysisFailed(_) => "PROJECT_ANALYSIS_FAILED",
            SyntariError::UnsupportedProjectType(_) => "UNSUPPORTED_PROJECT_TYPE",
            SyntariError::SessionNotFound(_) => "SESSION_NOT_FOUND",
            SyntariError::SessionCreateFailed(_) => "SESSION_CREATE_FAILED",
            SyntariError::MessageSendFailed(_) => "MESSAGE_SEND_FAILED",
            SyntariError::NetworkTimeout(_) => "NETWORK_TIMEOUT",
            SyntariError::NetworkUnavailable(_) => "NETWORK_UNAVAILABLE",
            SyntariError::ApiError(_) => "API_ERROR",
            SyntariError::InvalidInput(_) => "INVALID_INPUT",
            SyntariError::ValidationFailed(_) => "VALIDATION_FAILED",
            SyntariError::AuthenticationFailed(_) => "AUTH_FAILED",
            SyntariError::AuthorizationFailed(_) => "AUTHZ_FAILED",
            SyntariError::SecurityViolation(_) => "SECURITY_VIOLATION",
            SyntariError::Other(_) => "UNKNOWN_ERROR",
        }
    }

    fn label_of(&self) -> (r: &'static str)
        ensures
            r@ == self.label(),
    {
        match self {
            SyntariError::Initialization(_) => "Initialization error: ",
            SyntariError::Configuration(_) => "Configuration error: ",
            SyntariError::AiProviderUnavailable(_) => "AI provider unavailable: ",
            SyntariError::AiRequestFailed(_) => "AI request failed: ",
            SyntariError::AiResponseInvalid(_) => "AI response invalid: ",
            SyntariError::CostLimitExceeded(_) => "Cost limit exceeded: ",
            SyntariError::FileNotFound(_) => "File not found: ",
            SyntariError::FileAccessDenied(_) => "File access denied: ",
            SyntariError::DirectoryNotFound(_) => "Directory not found: ",
            SyntariError::DirectoryAccessDenied(_) => "Directory access denied: ",
            SyntariError::ProjectLoadFailed(_) => "Project load failed: ",
            SyntariError::ProjectAnalysisFailed(_) => "Project analysis failed: ",
            SyntariError::UnsupportedProjectType(_) => "Unsupported project type: ",
            SyntariError::SessionNotFound(_) => "Session not found: ",
            SyntariError::SessionCreateFailed(_) => "Session create failed: ",
            SyntariError::MessageSendFailed(_) => "Message send failed: ",
            SyntariError::NetworkTimeout(_) => "Network timeout: ",
            SyntariError::NetworkUnavailable(_) => "Network unavailable: ",
            SyntariError::ApiError(_) => "API error: ",
            SyntariError::InvalidInput(_) => "Invalid input: ",
            SyntariError::ValidationFailed(_) => "Validation failed: ",
            SyntariError::AuthenticationFailed(_) => "Authentication failed: ",
            SyntariError::AuthorizationFailed(_) => "Authorization failed: ",
            SyntariError::SecurityViolation(_) => "Security violation: ",
            SyntariError::Other(_) => "Error: ",
        }
    }

    fn detail_of(&self) -> (r: &str)
        ensures
            r@ == self.detail(),
    {
        match self {
            SyntariError::Initialization(m) => m.as_str(),
            SyntariError::Configuration(m) => m.as_str(),
            SyntariError::AiProviderUnavailable(m) => m.as_str(),
            SyntariError::AiRequestFailed(m) => m.as_str(),
            SyntariError::AiResponseInvalid(m) => m.as_str(),
            SyntariError::CostLimitExceeded(m) => m.as_str(),
            SyntariError::FileNotFound(m) => m.as_str(),
            SyntariError::FileAccessDenied(m) => m.as_str(),
            SyntariError::DirectoryNotFound(m) => m.as_str(),
            SyntariError::DirectoryAccessDenied(m) => m.as_str(),
            SyntariError::ProjectLoadFailed(m) => m.as_str(),
            SyntariError::ProjectAnalysisFailed(m) => m.as_str(),
            SyntariError::UnsupportedProjectType(m) => m.as_str(),
            SyntariError::SessionNotFound(m) => m.as_str(),
            SyntariError::SessionCreateFailed(m) => m.as_str(),
            SyntariError::MessageSendFailed(m) => m.as_str(),
            SyntariError::NetworkTimeout(m) => m.as_str(),
            SyntariError::NetworkUnavailable(m) => m.as_str(),
            SyntariError::ApiError(m) => m.as_str(),
            SyntariError::InvalidInput(m) => m.as_str(),
            SyntariError::ValidationFailed(m) => m.as_str(),
            SyntariError::AuthenticationFailed(m) => m.as_str(),
            SyntariError::AuthorizationFailed(m) => m.as_str(),
            SyntariError::SecurityViolation(m) => m.as_str(),
            SyntariError::Other(m) => m.as_str(),
        }
    }

    /// The failure as one line of text: what the kind is called, and what
    /// is known of the failure.
    pub fn render(&self) -> (r: String)
        ensures
            r@ == self.label() + self.detail(),
    {
        concat2(self.label_of(), self.detail_of())
    }
}

impl ErrorText for SyntariError {
    open spec fn text(&self) -> Seq<char> {
        self.label() + self.detail()
    }

    fn to_text(&self) -> (r: String) {
        self.render()
    }
}

} // verus!
