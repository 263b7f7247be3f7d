//! Detailed errors with numeric codes.
use crate::text::{decimal, decimal_text};
use vstd::prelude::*;
use vstd::string::StringExecFns;

verus! {

/// Error codes for the error categories.
#[derive(Debug, Clone, Copy, PartialEq, Eq, Structural)]
pub enum ErrorCode {
    ConfigNotFound,
    ConfigInvalid,
    ConfigMissing,
    AuthFailed,
    TokenExpired,
    TokenRefreshFailed,
    PkceInvalid,
    ChannelNotFound,
    ChannelConnectionFailed,
    ChannelMessageFailed,
    ProviderNotFound,
    ProviderUnavailable,
    ProviderRateLimited,
    ProviderInvalidResponse,
    ToolNotFound,
    ToolExecutionFailed,
    ToolTimeout,
    SessionNotFound,
    SessionExpired,
    SessionPersistenceFailed,
    DeviceNotFound,
    DeviceUnavailable,
    DeviceOperationFailed,
    InternalError,
    Unknown,
}

/// The number of each error code.
pub open spec fn code_value(c: ErrorCode) -> u32 {
    match c {
        ErrorCode::ConfigNotFound => 1001,
        ErrorCode::ConfigInvalid => 1002,
        ErrorCode::ConfigMissing => 1003,
        ErrorCode::AuthFailed => 2001,
        ErrorCode::TokenExpired => 2002,
        ErrorCode::TokenRefreshFailed => 2003,
        ErrorCode::PkceInvalid => 2004,
        ErrorCode::ChannelNotFound => 3001,
        ErrorCode::ChannelConnectionFailed => 3002,
        ErrorCode::ChannelMessageFailed => 3003,
        ErrorCode::ProviderNotFound => 4001,
        ErrorCode::ProviderUnavailable => 4002,
        ErrorCode::ProviderRateLimited => 4003,
        ErrorCode::ProviderInvalidResponse => 4004,
        ErrorCode::ToolNotFound => 5001,
        ErrorCode::ToolExecutionFailed => 5002,
        ErrorCode::ToolTimeout => 5003,
        ErrorCode::SessionNotFound => 6001,
        ErrorCode::SessionExpired => 6002,
        ErrorCode::SessionPersistenceFailed => 6003,
        ErrorCode::DeviceNotFound => 7001,
        ErrorCode::DeviceUnavailable => 7002,
        ErrorCode::DeviceOperationFailed => 7003,
        ErrorCode::InternalError => 9001,
        ErrorCode::Unknown => 9999,
    }
}

impl ErrorCode {
    /// The code's number: 1xxx configuration, 2xxx authentication, 3xxx channels,
    /// 4xxx providers, 5xxx tools, 6xxx sessions, 7xxx devices, 9xxx internal.
    pub fn value(self) -> (r: u32)
        ensures
            r == code_value(self),
    {
        match self {
            ErrorCode::ConfigNotFound => 1001,
            ErrorCode::ConfigInvalid => 1002,
            ErrorCode::ConfigMissing => 1003,
            ErrorCode::AuthFailed => 2001,
            ErrorCode::TokenExpired => 2002,
            ErrorCode::TokenRefreshFailed => 2003,
            ErrorCode::PkceInvalid => 2004,
            ErrorCode::ChannelNotFound => 3001,
            ErrorCode::ChannelConnectionFailed => 3002,
            ErrorCode::ChannelMessageFailed => 3003,
            ErrorCode::ProviderNotFound => 4001,
            ErrorCode::ProviderUnavailable => 4002,
            ErrorCode::ProviderRateLimited => 4003,
            ErrorCode::ProviderInvalidResponse => 4004,
            ErrorCode::ToolNotFound => 5001,
            ErrorCode::ToolExecutionFailed => 5002,
            ErrorCode::ToolTimeout => 5003,
            ErrorCode::SessionNotFound => 6001,
            ErrorCode::SessionExpired => 6002,
            ErrorCode::SessionPersistenceFailed => 6003,
            ErrorCode::DeviceNotFound => 7001,
            ErrorCode::DeviceUnavailable => 7002,
            ErrorCode::DeviceOperationFailed => 7003,
            ErrorCode::InternalError => 9001,
            ErrorCode::Unknown => 9999,
        }
    }
}

/// Detailed error information.
#[derive(Debug, Clone)]
pub struct PicoClawError {
    pub code: ErrorCode,
    pub message: String,
    pub context: Option<String>,
}

/// The displayed form of an error: `[code] message`, then ` (context)` when there is one.
pub open spec fn display_text(code: ErrorCode, message: Seq<char>, context: Option<Seq<char>>) -> Seq<char> {
    let head = "["@ + decimal(code_value(code) as nat) + "] "@ + message;
    match context {
        Some(c) => head + " ("@ + c + ")"@,
        None => head,
    }
}

/// Whether `after` is `before` with `context` as its context.
pub open spec fn is_with_context(before: PicoClawError, after: PicoClawError, context: Seq<char>) -> bool {
    &&& after.code == before.code
    &&& after.message == before.message
    &&& after.context matches Some(c) && c@ == context
}

impl PicoClawError {
    /// An error with `code` and `message` and no context.
    pub fn new(code: ErrorCode, message: &str) -> (r: Self)
        ensures
            r.code == code,
            r.message@ == message@,
            r.context is None,
    {
        PicoClawError { code, message: message.to_owned(), context: None }
    }

    /// The same error with `context`; a context given before is replaced.
    pub fn with_context(self, context: &str) -> (r: Self)
        ensures
            is_with_context(self, r, context@),
    {
        let mut r = self;
        r.context = Some(context.to_owned());
        r
    }

    /// The displayed form of the error.
    pub fn display(&self) -> (r: String)
        ensures
            r@ == display_text(
                self.code,
                self.message@,
                match self.context {
                    Some(c) => Some(c@),
                    None => None,
                },
            ),
    {
        let mut r = "[".to_owned();
        r.append(decimal_text(self.code.value() as u64).as_str());
        r.append("] ");
        r.append(self.message.as_str());
        match &self.context {
            Some(c) => {
                r.append(" (");
                r.append(c.as_str());
                r.append(")");
            },
            None => {},
        }
        r
    }
}

/// Setting a context twice keeps the last one; code and message stay.
pub proof fn law_context_override(e: PicoClawError, first: PicoClawError, second: PicoClawError, c1: Seq<char>, c2: Seq<char>)
    requires
        is_with_context(e, first, c1),
        is_with_context(first, second, c2),
    ensures
        is_with_context(e, second, c2),
{
}

/// The displayed form starts with the code's number in brackets and shows the context
/// in parentheses only when there is one.
pub proof fn law_display_shape(code: ErrorCode, message: Seq<char>, context: Option<Seq<char>>)
    ensures
        display_text(code, message, context).take(1) == "["@.take(1),
        context is None ==> display_text(code, message, context) == "["@ + decimal(code_value(code) as nat) + "] "@ + message,
{
    reveal_strlit("[");
    let d = decimal(code_value(code) as nat);
    let t = display_text(code, message, context);
    assert(t.take(1) =~= "["@.take(1));
}

} // verus!
