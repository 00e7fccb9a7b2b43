//! The unified failure taxonomy: nine categories, each with a stable machine
//! code, a message for people, and what the category knows of the context.

use vstd::prelude::*;
use vstd::string::*;
use crate::types::ErrorText;

verus! {

/// A categorised failure.
#[derive(Debug)]
pub enum AppError {
    /// The filesystem refused or lacked something.
    Filesystem { code: String, message: String, path: Option<String> },
    /// Access to a resource was denied.
    Permission { code: String, message: String, resource: String },
    /// A model provider failed; the cost is in billionths of a currency unit.
    Ai { code: String, message: String, provider: Option<String>, cost: Option<u64> },
    /// A project could not be handled.
    Project { code: String, message: String, project_path: Option<String> },
    /// A chat session could not be handled.
    Chat { code: String, message: String, session_id: Option<String> },
    /// The configuration is wrong.
    Config { code: String, message: String, key: Option<String> },
    /// The network or a remote service failed.
    Network { code: String, message: String, url: Option<String>, status: Option<u16> },
    /// The input is not acceptable.
    Validation { code: String, message: String, field: Option<String> },
    /// Something unexpected happened inside.
    Internal { code: String, message: String, source: Option<String> },
}

/// A result whose failure is an `AppError`.
pub type AppResult<T> = Result<T, AppError>;

/// The category of a failure.
#[derive(Debug, Clone, Copy, PartialEq, Eq, Structural)]
pub enum ErrorCategory {
    Filesystem,
    Permission,
    Ai,
    Project,
    Chat,
    Config,
    Network,
    Validation,
    Internal,
}

/// The kinds of input/output failure that have a code of their own.
#[derive(Debug, Clone, Copy, PartialEq, Eq, Structural)]
pub enum IoFailure {
    NotFound,
    PermissionDenied,
    AlreadyExists,
    InvalidInput,
    InvalidData,
    TimedOut,
    Interrupted,
    UnexpectedEof,
    OutOfMemory,
    Other,
}

/// The code of a kind of input/output failure.
pub open spec fn io_failure_code(kind: IoFailure) -> Seq<char> {
    match kind {
        IoFailure::NotFound => "FS_NOT_FOUND"@,
        IoFailure::PermissionDenied => "FS_PERMISSION_DENIED"@,
        IoFailure::AlreadyExists => "FS_ALREADY_EXISTS"@,
        IoFailure::InvalidInput => "FS_INVALID_INPUT"@,
        IoFailure::InvalidData => "FS_INVALID_DATA"@,
        IoFailure::TimedOut => "FS_TIMEOUT"@,
        IoFailure::Interrupted => "FS_INTERRUPTED"@,
        IoFailure::UnexpectedEof => "FS_UNEXPECTED_EOF"@,
        IoFailure::OutOfMemory => "FS_OUT_OF_MEMORY"@,
        IoFailure::Other => "FS_UNKNOWN"@,
    }
}

/// The text of an optional string, where there is one.
pub open spec fn opt_text(o: Option<String>) -> Option<Seq<char>> {
    match o {
        Some(s) => Some(s@),
        None => None,
    }
}

/// The rendered form of a failure: the code in square brackets, a space, the
/// message.
pub open spec fn rendered(code: Seq<char>, message: Seq<char>) -> Seq<char> {
    seq!['['] + code + seq![']', ' '] + message
}

/// A category can be retried: permission, configuration, validation and
/// internal failures cannot.
pub open spec fn category_is_recoverable(c: ErrorCategory) -> bool {
    match c {
        ErrorCategory::Filesystem => true,
        ErrorCategory::Permission => false,
        ErrorCategory::Ai => true,
        ErrorCategory::Project => true,
        ErrorCategory::Chat => true,
        ErrorCategory::Config => false,
        ErrorCategory::Network => true,
        ErrorCategory::Validation => false,
        ErrorCategory::Internal => false,
    }
}

/// The lower-case name of a category.
pub open spec fn category_name(c: ErrorCategory) -> Seq<char> {
    match c {
        ErrorCategory::Filesystem => "filesystem"@,
        ErrorCategory::Permission => "permission"@,
        ErrorCategory::Ai => "ai"@,
        ErrorCategory::Project => "project"@,
        ErrorCategory::Chat => "chat"@,
        ErrorCategory::Config => "config"@,
        ErrorCategory::Network => "network"@,
        ErrorCategory::Validation => "validation"@,
        ErrorCategory::Internal => "internal"@,
    }
}

impl AppError {
    /// The category of the failure.
    pub open spec fn category_of(&self) -> ErrorCategory {
        match self {
            AppError::Filesystem { .. } => ErrorCategory::Filesystem,
            AppError::Permission { .. } => ErrorCategory::Permission,
            AppError::Ai { .. } => ErrorCategory::Ai,
            AppError::Project { .. } => ErrorCategory::Project,
            AppError::Chat { .. } => ErrorCategory::Chat,
            AppError::Config { .. } => ErrorCategory::Config,
            AppError::Network { .. } => ErrorCategory::Network,
            AppError::Validation { .. } => ErrorCategory::Validation,
            AppError::Internal { .. } => ErrorCategory::Internal,
        }
    }

    /// The machine code of the failure.
    pub open spec fn code_text(&self) -> Seq<char> {
        match self {
            AppError::Filesystem { code, .. } => code@,
            AppError::Permission { code, .. } => code@,
            AppError::Ai { code, .. } => code@,
            AppError::Project { code, .. } => code@,
            AppError::Chat { code, .. } => code@,
            AppError::Config { code, .. } => code@,
            AppError::Network { code, .. } => code@,
            AppError::Validation { code, .. } => code@,
            AppError::Internal { code, .. } => code@,
        }
    }

    /// The message of the failure.
    pub open spec fn message_text(&self) -> Seq<char> {
        match self {
            AppError::Filesystem { message, .. } => message@,
            AppError::Permission { message, .. } => message@,
            AppError::Ai { message, .. } => message@,
            AppError::Project { message, .. } => message@,
            AppError::Chat { message, .. } => message@,
            AppError::Config { message, .. } => message@,
            AppError::Network { message, .. } => message@,
            AppError::Validation { message, .. } => message@,
            AppError::Internal { message, .. } => message@,
        }
    }

    /// What the failure knows of its context: the path, resource, provider,
    /// project, session, key, address, field or source it names.
    pub open spec fn context_text(&self) -> Option<Seq<char>> {
        match self {
            AppError::Filesystem { path, .. } => opt_text(*path),
            AppError::Permission { resource, .. } => Some(resource@),
            AppError::Ai { provider, .. } => opt_text(*provider),
            AppError::Project { project_path, .. } => opt_text(*project_path),
            AppError::Chat { session_id, .. } => opt_text(*session_id),
            AppError::Config { key, .. } => opt_text(*key),
            AppError::Network { url, .. } => opt_text(*url),
            AppError::Validation { field, .. } => opt_text(*field),
            AppError::Internal { source, .. } => opt_text(*source),
        }
    }

    /// The failure has the given category, code, message and context.
    pub open spec fn is(
        &self,
        category: ErrorCategory,
        code: Seq<char>,
        message: Seq<char>,
        context: Option<Seq<char>>,
    ) -> bool {
        &&& self.category_of() == category
        &&& self.code_text() == code
        &&& self.message_text() == message
        &&& self.context_text() == context
    }

    /// A filesystem failure that names no path.
    pub fn filesystem(code: &str, message: &str) -> (e: Self)
        ensures
            e.is(ErrorCategory::Filesystem, code@, message@, None),
    {
        AppError::Filesystem {
            code: String::from_str(code),
            message: String::from_str(message),
            path: None,
        }
    }

    /// A filesystem failure at `path`.
    pub fn filesystem_with_path(code: &str, message: &str, path: &str) -> (e: Self)
        ensures
            e.is(ErrorCategory::Filesystem, code@, message@, Some(path@)),
    {
        AppError::Filesystem {
            code: String::from_str(code),
            message: String::from_str(message),
            path: Some(String::from_str(path)),
        }
    }

    /// A permission failure on `resource`.
    pub fn permission(code: &str, message: &str, resource: &str) -> (e: Self)
        ensures
            e.is(ErrorCategory::Permission, code@, message@, Some(resource@)),
    {
        AppError::Permission {
            code: String::from_str(code),
            message: String::from_str(message),
            resource: String::from_str(resource),
        }
    }

    /// A provider failure without details.
    pub fn ai(code: &str, message: &str) -> (e: Self)
        ensures
            e.is(ErrorCategory::Ai, code@, message@, None),
            e matches AppError::Ai { cost, .. } && cost is None,
    {
        AppError::Ai {
            code: String::from_str(code),
            message: String::from_str(message),
            provider: None,
            cost: None,
        }
    }

    /// A provider failure that names the provider and what the request cost.
    pub fn ai_with_details(code: &str, message: &str, provider: Option<&str>, cost: Option<u64>) -> (e:
        Self)
        ensures
            e.category_of() == ErrorCategory::Ai,
            e.code_text() == code@,
            e.message_text() == message@,
            match provider {
                Some(p) => e.context_text() == Some(p@),
                None => e.context_text() is None,
            },
            e matches AppError::Ai { cost: c, .. } && c == cost,
    {
        AppError::Ai {
            code: String::from_str(code),
            message: String::from_str(message),
            provider: match provider {
                Some(p) => Some(String::from_str(p)),
                None => None,
            },
            cost,
        }
    }

    /// A validation failure that names no field.
    pub fn validation(code: &str, message: &str) -> (e: Self)
        ensures
            e.is(ErrorCategory::Validation, code@, message@, None),
    {
        AppError::Validation {
            code: String::from_str(code),
            message: String::from_str(message),
            field: None,
        }
    }

    /// A validation failure of `field`.
    pub fn validation_with_field(code: &str, message: &str, field: &str) -> (e: Self)
        ensures
            e.is(ErrorCategory::Validation, code@, message@, Some(field@)),
    {
        AppError::Validation {
            code: String::from_str(code),
            message: String::from_str(message),
            field: Some(String::from_str(field)),
        }
    }

    /// An internal failure that names no source.
    pub fn internal(code: &str, message: &str) -> (e: Self)
        ensures
            e.is(ErrorCategory::Internal, code@, message@, None),
    {
        AppError::Internal {
            code: String::from_str(code),
            message: String::from_str(message),
            source: None,
        }
    }

    /// A chat failure that names no session.
    pub fn chat(code: &str, message: &str) -> (e: Self)
        ensures
            e.is(ErrorCategory::Chat, code@, message@, None),
    {
        AppError::Chat {
            code: String::from_str(code),
            message: String::from_str(message),
            session_id: None,
        }
    }

    /// A chat failure of the session `session_id`.
    pub fn chat_with_session(code: &str, message: &str, session_id: &str) -> (e: Self)
        ensures
            e.is(ErrorCategory::Chat, code@, message@, Some(session_id@)),
    {
        AppError::Chat {
            code: String::from_str(code),
            message: String::from_str(message),
            session_id: Some(String::from_str(session_id)),
        }
    }

    /// A project failure that names no path.
    pub fn project(code: &str, message: &str) -> (e: Self)
        ensures
            e.is(ErrorCategory::Project, code@, message@, None),
    {
        AppError::Project {
            code: String::from_str(code),
            message: String::from_str(message),
            project_path: None,
        }
    }

    /// A project failure of the project at `project_path`.
    pub fn project_with_path(code: &str, message: &str, project_path: &str) -> (e: Self)
        ensures
            e.is(ErrorCategory::Project, code@, message@, Some(project_path@)),
    {
        AppError::Project {
            code: String::from_str(code),
            message: String::from_str(message),
            project_path: Some(String::from_str(project_path)),
        }
    }

    /// A configuration failure, of the setting `key` where one is named.
    pub fn config(code: &str, message: &str, key: Option<&str>) -> (e: Self)
        ensures
            e.category_of() == ErrorCategory::Config,
            e.code_text() == code@,
            e.message_text() == message@,
            match key {
                Some(k) => e.context_text() == Some(k@),
                None => e.context_text() is None,
            },
    {
        AppError::Config {
            code: String::from_str(code),
            message: String::from_str(message),
            key: match key {
                Some(k) => Some(String::from_str(k)),
                None => None,
            },
        }
    }

    /// A network failure, at `url` and with the status `status` where known.
    pub fn network(code: &str, message: &str, url: Option<&str>, status: Option<u16>) -> (e: Self)
        ensures
            e.category_of() == ErrorCategory::Network,
            e.code_text() == code@,
            e.message_text() == message@,
            match url {
                Some(u) => e.context_text() == Some(u@),
                None => e.context_text() is None,
            },
            e matches AppError::Network { status: s, .. } && s == status,
    {
        AppError::Network {
            code: String::from_str(code),
            message: String::from_str(message),
            url: match url {
                Some(u) => Some(String::from_str(u)),
                None => None,
            },
            status,
        }
    }

    /// The failure that an input/output error of the given kind and text
    /// becomes: a filesystem failure with the code of the kind.
    pub fn from_io(kind: IoFailure, description: &str) -> (e: Self)
        ensures
            e.is(ErrorCategory::Filesystem, io_failure_code(kind), description@, None),
    {
        let code = match kind {
            IoFailure::NotFound => "FS_NOT_FOUND",
            IoFailure::PermissionDenied => "FS_PERMISSION_DENIED",
            IoFailure::AlreadyExists => "FS_ALREADY_EXISTS",
            IoFailure::InvalidInput => "FS_INVALID_INPUT",
            IoFailure::InvalidData => "FS_INVALID_DATA",
            IoFailure::TimedOut => "FS_TIMEOUT",
            IoFailure::Interrupted => "FS_INTERRUPTED",
            IoFailure::UnexpectedEof => "FS_UNEXPECTED_EOF",
            IoFailure::OutOfMemory => "FS_OUT_OF_MEMORY",
            IoFailure::Other => "FS_UNKNOWN",
        };
        AppError::filesystem(code, description)
    }

    /// The failure that an error of the JSON reader with the given text
    /// becomes.
    pub fn from_json(description: &str) -> (e: Self)
        ensures
            e.is(
                ErrorCategory::Internal,
                "JSON_ERROR"@,
                "JSON processing error: "@ + description@,
                None,
            ),
    {
        let message = crate::text::concat2("JSON processing error: ", description);
        AppError::internal("JSON_ERROR", message.as_str())
    }

    /// The machine code.
    pub fn code(&self) -> (r: &str)
        ensures
            r@ == self.code_text(),
    {
        match self {
            AppError::Filesystem { code, .. } => code.as_str(),
            AppError::Permission { code, .. } => code.as_str(),
            AppError::Ai { code, .. } => code.as_str(),
            AppError::Project { code, .. } => code.as_str(),
            AppError::Chat { code, .. } => code.as_str(),
            AppError::Config { code, .. } => code.as_str(),
            AppError::Network { code, .. } => code.as_str(),
            AppError::Validation { code, .. } => code.as_str(),
            AppError::Internal { code, .. } => code.as_str(),
        }
    }

    /// The message.
    pub fn message(&self) -> (r: &str)
        ensures
            r@ == self.message_text(),
    {
        match self {
            AppError::Filesystem { message, .. } => message.as_str(),
            AppError::Permission { message, .. } => message.as_str(),
            AppError::Ai { message, .. } => message.as_str(),
            AppError::Project { message, .. } => message.as_str(),
            AppError::Chat { message, .. } => message.as_str(),
            AppError::Config { message, .. } => message.as_str(),
            AppError::Network { message, .. } => message.as_str(),
            AppError::Validation { message, .. } => message.as_str(),
            AppError::Internal { message, .. } => message.as_str(),
        }
    }

    /// The category.
    pub fn category(&self) -> (c: ErrorCategory)
        ensures
            c == self.category_of(),
    {
        match self {
            AppError::Filesystem { .. } => ErrorCategory::Filesystem,
            AppError::Permission { .. } => ErrorCategory::Permission,
            AppError::Ai { .. } => ErrorCategory::Ai,
            AppError::Project { .. } => ErrorCategory::Project,
            AppError::Chat { .. } => ErrorCategory::Chat,
            AppError::Config { .. } => ErrorCategory::Config,
            AppError::Network { .. } => ErrorCategory::Network,
            AppError::Validation { .. } => ErrorCategory::Validation,
            AppError::Internal { .. } => ErrorCategory::Internal,
        }
    }

    /// Whether a retry can help: a property of the category alone.
    pub fn is_recoverable(&self) -> (r: bool)
        ensures
            r == category_is_recoverable(self.category_of()),
    {
        match self {
            AppError::Filesystem { .. } => true,
            AppError::Permission { .. } => false,
            AppError::Ai { .. } => true,
            AppError::Project { .. } => true,
            AppError::Chat { .. } => true,
            AppError::Config { .. } => false,
            AppError::Network { .. } => true,
            AppError::Validation { .. } => false,
            AppError::Internal { .. } => false,
        }
    }

    /// The lower-case name of the category, as logs show it.
    pub fn error_type(&self) -> (r: &'static str)
        ensures
            r@ == category_name(self.category_of()),
    {
        match self {
            AppError::Filesystem { .. } => "filesystem",
            AppError::Permission { .. } => "permission",
            AppError::Ai { .. } => "ai",
            AppError::Project { .. } => "project",
            AppError::Chat { .. } => "chat",
            AppError::Config { .. } => "config",
            AppError::Network { .. } => "network",
            AppError::Validation { .. } => "validation",
            AppError::Internal { .. } => "internal",
        }
    }

    /// The failure as the envelope shows it: `[code] message`.
    pub fn render(&self) -> (r: String)
        ensures
            r@ == rendered(self.code_text(), self.message_text()),
    {
        let mut r = String::new();
        r.append("[");
        r.append(self.code());
        r.append("] ");
        r.append(self.message());
        proof {
            reveal_strlit("[");
            reveal_strlit("] ");
            assert("["@ =~= seq!['[']);
            assert("] "@ =~= seq![']', ' ']);
            assert(r@ =~= rendered(self.code_text(), self.message_text()));
        }
        r
    }

    /// The same failure with the context `context` put before its message. An
    /// internal failure keeps its code and source; any other becomes an
    /// internal failure with the code `CONTEXT_ERROR`.
    pub fn in_context(self, context: &str) -> (e: Self)
        ensures
            e.category_of() == ErrorCategory::Internal,
            e.message_text() == context@ + ": "@ + self.message_text(),
            self.category_of() == ErrorCategory::Internal ==> e.code_text() == self.code_text()
                && e.context_text() == self.context_text(),
            self.category_of() != ErrorCategory::Internal ==> e.code_text() == "CONTEXT_ERROR"@
                && e.context_text() is None,
    {
        let message = crate::text::concat3(context, ": ", self.message());
        match self {
            AppError::Internal { code, message: _, source } => AppError::Internal {
                code,
                message,
                source,
            },
            _ => AppError::Internal { code: String::from_str("CONTEXT_ERROR"), message, source: None },
        }
    }

    /// The same failure with `path` attached where it is a filesystem
    /// failure; any other failure is returned as it is.
    pub fn at_path(self, path: &str) -> (e: Self)
        ensures
            e.category_of() == self.category_of(),
            e.code_text() == self.code_text(),
            e.message_text() == self.message_text(),
            self.category_of() == ErrorCategory::Filesystem ==> e.context_text() == Some(path@),
            self.category_of() != ErrorCategory::Filesystem ==> e == self,
    {
        match self {
            AppError::Filesystem { code, message, path: _ } => AppError::Filesystem {
                code,
                message,
                path: Some(String::from_str(path)),
            },
            other => other,
        }
    }
}

impl ErrorText for AppError {
    open spec fn text(&self) -> Seq<char> {
        rendered(self.code_text(), self.message_text())
    }

    fn to_text(&self) -> (r: String) {
        self.render()
    }
}

/// Adds context to the failure of a result.
pub trait ErrorContext<T>: Sized {
    /// Puts the text that `f` yields before the message of a failure; a
    /// success passes through and `f` is not called.
    fn with_context<F: FnOnce() -> String>(self, f: F) -> (r: AppResult<T>)
        requires
            f.requires(()),
    ;

    /// Attaches `path` to a filesystem failure; anything else passes through.
    fn with_filesystem_context(self, path: &str) -> (r: AppResult<T>);
}

/// What `with_context` makes of a result, given the text `context`.
pub open spec fn contextualized<T>(before: AppResult<T>, after: AppResult<T>, context: Seq<char>) -> bool {
    match before {
        Ok(v) => after == Ok::<T, AppError>(v),
        Err(e) => after matches Err(e2) && {
            &&& e2.category_of() == ErrorCategory::Internal
            &&& e2.message_text() == context + ": "@ + e.message_text()
            &&& e.category_of() == ErrorCategory::Internal ==> e2.code_text() == e.code_text()
                && e2.context_text() == e.context_text()
            &&& e.category_of() != ErrorCategory::Internal ==> e2.code_text() == "CONTEXT_ERROR"@
                && e2.context_text() is None
        },
    }
}

/// What `with_filesystem_context` makes of a result, given the path `path`.
pub open spec fn located<T>(before: AppResult<T>, after: AppResult<T>, path: Seq<char>) -> bool {
    match before {
        Ok(v) => after == Ok::<T, AppError>(v),
        Err(e) => after matches Err(e2) && {
            &&& e2.category_of() == e.category_of()
            &&& e2.code_text() == e.code_text()
            &&& e2.message_text() == e.message_text()
            &&& e.category_of() == ErrorCategory::Filesystem ==> e2.context_text() == Some(path)
            &&& e.category_of() != ErrorCategory::Filesystem ==> e2 == e
        },
    }
}

impl<T> ErrorContext<T> for AppResult<T> {
    fn with_context<F: FnOnce() -> String>(self, f: F) -> (r: AppResult<T>)
        ensures
            self is Ok ==> r == self,
            self is Err ==> exists|c: String| f.ensures((), c) && contextualized(self, r, c@),
    {
        match self {
            Ok(v) => Ok(v),
            Err(e) => {
                let c = f();
                let e2 = e.in_context(c.as_str());
                let r = Err(e2);
                assert(contextualized(self, r, c@));
                r
            },
        }
    }

    fn with_filesystem_context(self, path: &str) -> (r: AppResult<T>)
        ensures
            located(self, r, path@),
    {
        match self {
            Ok(v) => Ok(v),
            Err(e) => Err(e.at_path(path)),
        }
    }
}

} // verus!
