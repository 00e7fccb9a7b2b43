use syntari_desktop_lib::error::{NetworkFailure, SyntariError};
use syntari_desktop_lib::errors::{AppError, AppResult, ErrorCategory, ErrorContext, IoFailure};
use syntari_desktop_lib::types::{current_timestamp, generate_id, ErrorText, TauriResult};

#[test]
fn success_envelope_carries_data() {
    let r = TauriResult::success(7u32);
    assert!(r.success);
    assert_eq!(r.data, Some(7u32));
    assert_eq!(r.error, None);
}

#[test]
fn error_envelope_carries_message() {
    let r: TauriResult<u32> = TauriResult::error("boom");
    assert!(!r.success);
    assert_eq!(r.data, None);
    assert_eq!(r.error, Some("boom".to_string()));
}

#[test]
fn an_envelope_is_made_of_an_outcome() {
    let ok: AppResult<u8> = Ok(3);
    let r = TauriResult::from_result(ok);
    assert!(r.success);
    assert_eq!(r.data, Some(3));
    let failed: AppResult<u8> = Err(AppError::validation("INVALID_INPUT", "bad"));
    let r = TauriResult::from_result(failed);
    assert!(!r.success);
    assert_eq!(r.data, None);
    assert_eq!(r.error, Some("[INVALID_INPUT] bad".to_string()));
    let text: Result<u8, String> = Err("plain".to_string());
    assert_eq!(TauriResult::from_result(text).error, Some("plain".to_string()));
    let old: Result<u8, SyntariError> = Err(SyntariError::FileNotFound("a.txt".to_string()));
    assert_eq!(TauriResult::from_result(old).error, Some("File not found: a.txt".to_string()));
}

#[test]
fn generated_ids_are_hyphenated() {
    let id = generate_id();
    assert_eq!(id.len(), 36);
    for i in [8, 13, 18, 23] {
        assert_eq!(id.as_bytes()[i], b'-');
    }
    assert_ne!(id, generate_id());
    assert!(current_timestamp() > 1_600_000_000);
}

#[test]
fn every_category_has_its_constructor() {
    let cases: Vec<(AppError, ErrorCategory, &str, bool)> = vec![
        (AppError::filesystem("C", "m"), ErrorCategory::Filesystem, "filesystem", true),
        (AppError::filesystem_with_path("C", "m", "/p"), ErrorCategory::Filesystem, "filesystem", true),
        (AppError::permission("C", "m", "res"), ErrorCategory::Permission, "permission", false),
        (AppError::ai("C", "m"), ErrorCategory::Ai, "ai", true),
        (AppError::ai_with_details("C", "m", Some("p"), Some(5)), ErrorCategory::Ai, "ai", true),
        (AppError::project("C", "m"), ErrorCategory::Project, "project", true),
        (AppError::project_with_path("C", "m", "/p"), ErrorCategory::Project, "project", true),
        (AppError::chat("C", "m"), ErrorCategory::Chat, "chat", true),
        (AppError::chat_with_session("C", "m", "s"), ErrorCategory::Chat, "chat", true),
        (AppError::config("C", "m", Some("k")), ErrorCategory::Config, "config", false),
        (AppError::network("C", "m", Some("u"), Some(503)), ErrorCategory::Network, "network", true),
        (AppError::validation("C", "m"), ErrorCategory::Validation, "validation", false),
        (AppError::validation_with_field("C", "m", "f"), ErrorCategory::Validation, "validation", false),
        (AppError::internal("C", "m"), ErrorCategory::Internal, "internal", false),
    ];
    for (e, category, name, recoverable) in cases {
        assert_eq!(e.category(), category);
        assert_eq!(e.error_type(), name);
        assert_eq!(e.is_recoverable(), recoverable);
        assert_eq!(e.code(), "C");
        assert_eq!(e.message(), "m");
        assert_eq!(e.render(), "[C] m");
        assert_eq!(e.to_text(), "[C] m");
    }
    match AppError::filesystem_with_path("C", "m", "/p") {
        AppError::Filesystem { path, .. } => assert_eq!(path, Some("/p".to_string())),
        other => panic!("unexpected {:?}", other),
    }
    match AppError::ai_with_details("C", "m", None, Some(5)) {
        AppError::Ai { provider, cost, .. } => {
            assert_eq!(provider, None);
            assert_eq!(cost, Some(5));
        }
        other => panic!("unexpected {:?}", other),
    }
    match AppError::network("C", "m", None, Some(404)) {
        AppError::Network { url, status, .. } => {
            assert_eq!(url, None);
            assert_eq!(status, Some(404));
        }
        other => panic!("unexpected {:?}", other),
    }
}

#[test]
fn input_output_failures_get_codes() {
    let cases = [
        (IoFailure::NotFound, "FS_NOT_FOUND"),
        (IoFailure::PermissionDenied, "FS_PERMISSION_DENIED"),
        (IoFailure::AlreadyExists, "FS_ALREADY_EXISTS"),
        (IoFailure::InvalidInput, "FS_INVALID_INPUT"),
        (IoFailure::InvalidData, "FS_INVALID_DATA"),
        (IoFailure::TimedOut, "FS_TIMEOUT"),
        (IoFailure::Interrupted, "FS_INTERRUPTED"),
        (IoFailure::UnexpectedEof, "FS_UNEXPECTED_EOF"),
        (IoFailure::OutOfMemory, "FS_OUT_OF_MEMORY"),
        (IoFailure::Other, "FS_UNKNOWN"),
    ];
    for (kind, code) in cases {
        let e = AppError::from_io(kind, "why");
        assert_eq!(e.code(), code);
        assert_eq!(e.message(), "why");
        assert_eq!(e.category(), ErrorCategory::Filesystem);
    }
    let e = AppError::from_json("eof");
    assert_eq!(e.code(), "JSON_ERROR");
    assert_eq!(e.message(), "JSON processing error: eof");
    assert_eq!(e.category(), ErrorCategory::Internal);
}

#[test]
fn context_is_put_before_the_message() {
    let failed: AppResult<u8> = Err(AppError::internal("X", "inner"));
    let e = failed.with_context(|| "outer".to_string()).unwrap_err();
    assert_eq!(e.code(), "X");
    assert_eq!(e.message(), "outer: inner");
    let failed: AppResult<u8> = Err(AppError::filesystem_with_path("FS", "inner", "/p"));
    let e = failed.with_context(|| "outer".to_string()).unwrap_err();
    assert_eq!(e.code(), "CONTEXT_ERROR");
    assert_eq!(e.message(), "outer: inner");
    assert_eq!(e.category(), ErrorCategory::Internal);
    let ok: AppResult<u8> = Ok(1);
    assert_eq!(ok.with_context(|| panic!("not called")).unwrap(), 1);
    let failed: AppResult<u8> = Err(AppError::filesystem("FS", "m"));
    match failed.with_filesystem_context("/here").unwrap_err() {
        AppError::Filesystem { path, code, .. } => {
            assert_eq!(path, Some("/here".to_string()));
            assert_eq!(code, "FS");
        }
        other => panic!("unexpected {:?}", other),
    }
    let failed: AppResult<u8> = Err(AppError::chat("C", "m"));
    assert_eq!(failed.with_filesystem_context("/here").unwrap_err().category(), ErrorCategory::Chat);
    assert_eq!(AppError::chat("C", "m").in_context("ctx").message(), "ctx: m");
    assert_eq!(AppError::chat("C", "m").at_path("/p").category(), ErrorCategory::Chat);
}

#[test]
fn failures_by_kind() {
    let e = SyntariError::SecurityViolation("x".to_string());
    assert!(!e.is_recoverable());
    assert_eq!(e.severity(), "critical");
    assert_eq!(e.error_code(), "SECURITY_VIOLATION");
    assert_eq!(e.render(), "Security violation: x");
    assert!(!SyntariError::AuthenticationFailed("x".to_string()).is_recoverable());
    assert!(!SyntariError::AuthorizationFailed("x".to_string()).is_recoverable());
    assert!(SyntariError::ValidationFailed("x".to_string()).is_recoverable());
    assert_eq!(SyntariError::CostLimitExceeded("x".to_string()).severity(), "high");
    assert_eq!(SyntariError::ProjectLoadFailed("x".to_string()).severity(), "high");
    assert_eq!(SyntariError::NetworkTimeout("x".to_string()).severity(), "medium");
    assert_eq!(SyntariError::AiProviderUnavailable("x".to_string()).severity(), "medium");
    assert_eq!(SyntariError::Other("x".to_string()).severity(), "low");
    assert_eq!(SyntariError::DirectoryNotFound("d".to_string()).error_code(), "DIR_NOT_FOUND");
    assert_eq!(SyntariError::Initialization("d".to_string()).render(), "Initialization error: d");
    assert_eq!(SyntariError::Other("d".to_string()).render(), "Error: d");
    assert_eq!(SyntariError::Other("d".to_string()).with_context("c").render(), "Error: c: d");
    assert_eq!(SyntariError::ApiError("d".to_string()).with_context("c").render(), "API error: d");
    assert_eq!(SyntariError::from_io(IoFailure::NotFound, "gone").error_code(), "FILE_NOT_FOUND");
    assert_eq!(SyntariError::from_io(IoFailure::PermissionDenied, "no").error_code(), "FILE_ACCESS_DENIED");
    assert_eq!(SyntariError::from_io(IoFailure::TimedOut, "t").error_code(), "UNKNOWN_ERROR");
    assert_eq!(SyntariError::from_other("t").render(), "Error: t");
    assert_eq!(SyntariError::from_json("eof").render(), "Validation failed: JSON parsing error: eof");
    assert_eq!(SyntariError::from_network(NetworkFailure::Timeout, "t").error_code(), "NETWORK_TIMEOUT");
    assert_eq!(SyntariError::from_network(NetworkFailure::Connect, "t").error_code(), "NETWORK_UNAVAILABLE");
    assert_eq!(SyntariError::from_network(NetworkFailure::Other, "t").error_code(), "API_ERROR");
}

#[test]
fn every_kind_of_failure_has_its_code_label_and_severity() {
    let d = || "d".to_string();
    let kinds: Vec<(SyntariError, &str, &str, &str, bool)> = vec![
        (SyntariError::Initialization(d()), "INIT_ERROR", "Initialization error: d", "low", true),
        (SyntariError::Configuration(d()), "CONFIG_ERROR", "Configuration error: d", "low", true),
        (SyntariError::AiProviderUnavailable(d()), "AI_PROVIDER_UNAVAILABLE", "AI provider unavailable: d", "medium", true),
        (SyntariError::AiRequestFailed(d()), "AI_REQUEST_FAILED", "AI request failed: d", "low", true),
        (SyntariError::AiResponseInvalid(d()), "AI_RESPONSE_INVALID", "AI response invalid: d", "low", true),
        (SyntariError::CostLimitExceeded(d()), "COST_LIMIT_EXCEEDED", "Cost limit exceeded: d", "high", true),
        (SyntariError::FileNotFound(d()), "FILE_NOT_FOUND", "File not found: d", "low", true),
        (SyntariError::FileAccessDenied(d()), "FILE_ACCESS_DENIED", "File access denied: d", "low", true),
        (SyntariError::DirectoryNotFound(d()), "DIR_NOT_FOUND", "Directory not found: d", "low", true),
        (SyntariError::DirectoryAccessDenied(d()), "DIR_ACCESS_DENIED", "Directory access denied: d", "low", true),
        (SyntariError::ProjectLoadFailed(d()), "PROJECT_LOAD_FAILED", "Project load failed: d", "high", true),
        (SyntariError::ProjectAnalysisFailed(d()), "PROJECT_ANALYSIS_FAILED", "Project analysis failed: d", "low", true),
        (SyntariError::UnsupportedProjectType(d()), "UNSUPPORTED_PROJECT_TYPE", "Unsupported project type: d", "low", true),
        (SyntariError::SessionNotFound(d()), "SESSION_NOT_FOUND", "Session not found: d", "low", true),
        (SyntariError::SessionCreateFailed(d()), "SESSION_CREATE_FAILED", "Session create failed: d", "low", true),
        (SyntariError::MessageSendFailed(d()), "MESSAGE_SEND_FAILED", "Message send failed: d", "low", true),
        (SyntariError::NetworkTimeout(d()), "NETWORK_TIMEOUT", "Network timeout: d", "medium", true),
        (SyntariError::NetworkUnavailable(d()), "NETWORK_UNAVAILABLE", "Network unavailable: d", "low", true),
        (SyntariError::ApiError(d()), "API_ERROR", "API error: d", "low", true),
        (SyntariError::InvalidInput(d()), "INVALID_INPUT", "Invalid input: d", "low", true),
        (SyntariError::ValidationFailed(d()), "VALIDATION_FAILED", "Validation failed: d", "low", true),
        (SyntariError::AuthenticationFailed(d()), "AUTH_FAILED", "Authentication failed: d", "critical", false),
        (SyntariError::AuthorizationFailed(d()), "AUTHZ_FAILED", "Authorization failed: d", "critical", false),
        (SyntariError::SecurityViolation(d()), "SECURITY_VIOLATION", "Security violation: d", "critical", false),
        (SyntariError::Other(d()), "UNKNOWN_ERROR", "Error: d", "low", true),
    ];
    assert_eq!(kinds.len(), 25);
    for (e, code, text, severity, recoverable) in kinds {
        assert_eq!(e.error_code(), code);
        assert_eq!(e.render(), text);
        assert_eq!(e.severity(), severity);
        assert_eq!(e.is_recoverable(), recoverable);
    }
}
