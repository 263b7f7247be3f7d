//! Error types.
pub mod types;
use vstd::prelude::*;
use vstd::string::StringExecFns;

verus! {

/// `std::io::Error`, carried by the `Io` variant.
#[verifier::external_type_specification]
#[verifier::external_body]
pub struct ExIoError(std::io::Error);

/// Main error type.
#[derive(Debug)]
pub enum Error {
    Config(String),
    Auth(String),
    Channel(String),
    LlmProvider(String),
    Tool(String),
    Session(String),
    Device(String),
    Io(std::io::Error),
    Serialization(String),
    Http(String),
    Timeout(String),
    Runtime(String),
    Internal(String),
    Unknown(String),
}

/// Result type of the library's operations.
pub type Result<T> = std::result::Result<T, Error>;

/// The prefix of the message of each kind of error.
pub open spec fn error_prefix(e: Error) -> Seq<char> {
    match e {
        Error::Config(_) => "Configuration error: "@,
        Error::Auth(_) => "Authentication error: "@,
        Error::Channel(_) => "Channel error: "@,
        Error::LlmProvider(_) => "LLM provider error: "@,
        Error::Tool(_) => "Tool execution error: "@,
        Error::Session(_) => "Session error: "@,
        Error::Device(_) => "Device error: "@,
        Error::Io(_) => "IO error: "@,
        Error::Serialization(_) => "Serialization error: "@,
        Error::Http(_) => "HTTP error: "@,
        Error::Timeout(_) => "Timeout error: "@,
        Error::Runtime(_) => "Runtime error: "@,
        Error::Internal(_) => "Internal error: "@,
        Error::Unknown(_) => "Unknown error: "@,
    }
}

/// The detail text of an error that carries one.
pub open spec fn error_detail(e: Error) -> Option<Seq<char>> {
    match e {
        Error::Config(m) => Some(m@),
        Error::Auth(m) => Some(m@),
        Error::Channel(m) => Some(m@),
        Error::LlmProvider(m) => Some(m@),
        Error::Tool(m) => Some(m@),
        Error::Session(m) => Some(m@),
        Error::Device(m) => Some(m@),
        Error::Io(_) => None,
        Error::Serialization(m) => Some(m@),
        Error::Http(m) => Some(m@),
        Error::Timeout(m) => Some(m@),
        Error::Runtime(m) => Some(m@),
        Error::Internal(m) => Some(m@),
        Error::Unknown(m) => Some(m@),
    }
}

impl Error {
    /// A configuration error.
    pub fn config(msg: &str) -> (r: Self)
        ensures
            r matches Error::Config(m) && m@ == msg@,
    {
        Error::Config(msg.to_owned())
    }

    /// An authentication error.
    pub fn auth(msg: &str) -> (r: Self)
        ensures
            r matches Error::Auth(m) && m@ == msg@,
    {
        Error::Auth(msg.to_owned())
    }

    /// A channel error.
    pub fn channel(msg: &str) -> (r: Self)
        ensures
            r matches Error::Channel(m) && m@ == msg@,
    {
        Error::Channel(msg.to_owned())
    }

    /// An LLM provider error.
    pub fn llm_provider(msg: &str) -> (r: Self)
        ensures
            r matches Error::LlmProvider(m) && m@ == msg@,
    {
        Error::LlmProvider(msg.to_owned())
    }

    /// A tool execution error.
    pub fn tool(msg: &str) -> (r: Self)
        ensures
            r matches Error::Tool(m) && m@ == msg@,
    {
        Error::Tool(msg.to_owned())
    }

    /// A session error.
    pub fn session(msg: &str) -> (r: Self)
        ensures
            r matches Error::Session(m) && m@ == msg@,
    {
        Error::Session(msg.to_owned())
    }

    /// A device error.
    pub fn device(msg: &str) -> (r: Self)
        ensures
            r matches Error::Device(m) && m@ == msg@,
    {
        Error::Device(msg.to_owned())
    }

    /// A serialization error.
    pub fn serialization(msg: &str) -> (r: Self)
        ensures
            r matches Error::Serialization(m) && m@ == msg@,
    {
        Error::Serialization(msg.to_owned())
    }

    /// An HTTP error.
    pub fn http(msg: &str) -> (r: Self)
        ensures
            r matches Error::Http(m) && m@ == msg@,
    {
        Error::Http(msg.to_owned())
    }

    /// A timeout error.
    pub fn timeout(msg: &str) -> (r: Self)
        ensures
            r matches Error::Timeout(m) && m@ == msg@,
    {
        Error::Timeout(msg.to_owned())
    }

    /// A runtime error.
    pub fn runtime(msg: &str) -> (r: Self)
        ensures
            r matches Error::Runtime(m) && m@ == msg@,
    {
        Error::Runtime(msg.to_owned())
    }

    /// An internal error.
    pub fn internal(msg: &str) -> (r: Self)
        ensures
            r matches Error::Internal(m) && m@ == msg@,
    {
        Error::Internal(msg.to_owned())
    }

    /// The error's message: the prefix of its kind followed by its detail text. For an
    /// I/O error the detail is the I/O error's own message, of which nothing is stated.
    pub fn message(&self) -> (r: String)
        ensures
            error_detail(*self) matches Some(d) ==> r@ == error_prefix(*self) + d,
            error_detail(*self) is None ==> r@.len() >= error_prefix(*self).len() && r@.subrange(
                0,
                error_prefix(*self).len() as int,
            ) == error_prefix(*self),
    {
        let (prefix, detail): (&str, String) = match self {
            Error::Config(m) => ("Configuration error: ", m.clone()),
            Error::Auth(m) => ("Authentication error: ", m.clone()),
            Error::Channel(m) => ("Channel error: ", m.clone()),
            Error::LlmProvider(m) => ("LLM provider error: ", m.clone()),
            Error::Tool(m) => ("Tool execution error: ", m.clone()),
            Error::Session(m) => ("Session error: ", m.clone()),
            Error::Device(m) => ("Device error: ", m.clone()),
            Error::Io(e) => ("IO error: ", e.to_string()),
            Error::Serialization(m) => ("Serialization error: ", m.clone()),
            Error::Http(m) => ("HTTP error: ", m.clone()),
            Error::Timeout(m) => ("Timeout error: ", m.clone()),
            Error::Runtime(m) => ("Runtime error: ", m.clone()),
            Error::Internal(m) => ("Internal error: ", m.clone()),
            Error::Unknown(m) => ("Unknown error: ", m.clone()),
        };
        let mut r = prefix.to_owned();
        r.append(detail.as_str());
        r
    }
}

} // verus!
