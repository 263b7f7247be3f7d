use picoclaw::error::types::{ErrorCode, PicoClawError};
use picoclaw::error::Error;

#[test]
fn test_error_creation() {
    let error = PicoClawError::new(ErrorCode::ConfigNotFound, "config.yaml not found");
    assert_eq!(error.code, ErrorCode::ConfigNotFound);
    assert_eq!(error.message, "config.yaml not found");
    assert!(error.context.is_none());
}

#[test]
fn test_error_with_context() {
    let error = PicoClawError::new(ErrorCode::ConfigInvalid, "invalid config format")
        .with_context("at line 42");
    assert_eq!(error.code, ErrorCode::ConfigInvalid);
    assert_eq!(error.message, "invalid config format");
    assert_eq!(error.context, Some("at line 42".to_string()));
}

#[test]
fn test_error_display_without_context() {
    let error = PicoClawError::new(ErrorCode::AuthFailed, "authentication failed");
    let display_str = error.display();
    assert!(display_str.contains("2001"));
    assert!(display_str.contains("authentication failed"));
    assert!(!display_str.contains("("));
}

#[test]
fn test_error_display_with_context() {
    let error = PicoClawError::new(ErrorCode::TokenExpired, "token expired")
        .with_context("user_id: 123");
    let display_str = error.display();
    assert!(display_str.contains("2002"));
    assert!(display_str.contains("token expired"));
    assert!(display_str.contains("user_id: 123"));
}

#[test]
fn test_error_context_capture() {
    let error = PicoClawError::new(ErrorCode::ChannelConnectionFailed, "connection timeout")
        .with_context("telegram channel, attempt 3");
    assert!(error.context.is_some());
    assert_eq!(error.context.unwrap(), "telegram channel, attempt 3");
}

#[test]
fn test_error_context_override() {
    let error = PicoClawError::new(ErrorCode::ProviderUnavailable, "provider down")
        .with_context("first context")
        .with_context("second context");
    assert_eq!(error.context, Some("second context".to_string()));
}

#[test]
fn test_error_code_values() {
    assert_eq!(ErrorCode::ConfigNotFound.value(), 1001);
    assert_eq!(ErrorCode::AuthFailed.value(), 2001);
    assert_eq!(ErrorCode::ChannelNotFound.value(), 3001);
    assert_eq!(ErrorCode::ProviderNotFound.value(), 4001);
    assert_eq!(ErrorCode::ToolNotFound.value(), 5001);
    assert_eq!(ErrorCode::SessionNotFound.value(), 6001);
    assert_eq!(ErrorCode::DeviceNotFound.value(), 7001);
    assert_eq!(ErrorCode::InternalError.value(), 9001);
    assert_eq!(ErrorCode::Unknown.value(), 9999);
}

#[test]
fn test_error_clone() {
    let error = PicoClawError::new(ErrorCode::ToolExecutionFailed, "tool failed")
        .with_context("tool: shell");
    let cloned = error.clone();
    assert_eq!(cloned.code, error.code);
    assert_eq!(cloned.message, error.message);
    assert_eq!(cloned.context, error.context);
}

#[test]
fn test_error_debug_format() {
    let error = PicoClawError::new(ErrorCode::SessionExpired, "session expired")
        .with_context("session_id: abc123");
    let debug_str = format!("{:?}", error);
    assert!(debug_str.contains("PicoClawError"));
    assert!(debug_str.contains("SessionExpired"));
    assert!(debug_str.contains("session expired"));
}

#[test]
fn display_exact_forms() {
    let plain = PicoClawError::new(ErrorCode::PkceInvalid, "bad verifier");
    assert_eq!(plain.display(), "[2004] bad verifier");
    let with = plain.with_context("login");
    assert_eq!(with.display(), "[2004] bad verifier (login)");
    assert_eq!(PicoClawError::new(ErrorCode::Unknown, "x").display(), "[9999] x");
}

#[test]
fn error_constructors_and_messages() {
    assert_eq!(Error::config("bad").message(), "Configuration error: bad");
    assert_eq!(Error::auth("no").message(), "Authentication error: no");
    assert_eq!(Error::channel("c").message(), "Channel error: c");
    assert_eq!(Error::llm_provider("p").message(), "LLM provider error: p");
    assert_eq!(Error::tool("t").message(), "Tool execution error: t");
    assert_eq!(Error::session("s").message(), "Session error: s");
    assert_eq!(Error::device("d").message(), "Device error: d");
    assert_eq!(Error::serialization("j").message(), "Serialization error: j");
    assert_eq!(Error::http("h").message(), "HTTP error: h");
    assert_eq!(Error::timeout("t").message(), "Timeout error: t");
    assert_eq!(Error::runtime("r").message(), "Runtime error: r");
    assert_eq!(Error::internal("i").message(), "Internal error: i");
    assert_eq!(Error::Unknown("u".to_string()).message(), "Unknown error: u");
    let io = Error::Io(std::io::Error::new(std::io::ErrorKind::Other, "disk"));
    assert_eq!(io.message(), "IO error: disk");
    assert!(matches!(Error::config("x"), Error::Config(m) if m == "x"));
}

#[test]
fn error_code_categories() {
    let all = [
        ErrorCode::ConfigMissing, ErrorCode::TokenRefreshFailed, ErrorCode::ChannelMessageFailed,
        ErrorCode::ProviderInvalidResponse, ErrorCode::ToolTimeout, ErrorCode::SessionPersistenceFailed,
        ErrorCode::DeviceOperationFailed,
    ];
    let expected = [1003, 2003, 3003, 4004, 5003, 6003, 7003];
    for (c, e) in all.iter().zip(expected.iter()) {
        assert_eq!(c.value(), *e);
    }
}
