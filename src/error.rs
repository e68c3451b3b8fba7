use vstd::prelude::*;
use vstd::string::*;

verus! {

/// Everything that can go wrong while a tool call is carried out, or while
/// the session talks to the model.
#[derive(Debug)]
pub enum AppError {
    /// A required argument of a tool call is absent or not a string.
    MissingParameter(String),
    /// The model named a tool that is not registered.
    UnsupportedToolCall(String),
    /// The arguments of a tool call are not a JSON object.
    InvalidArguments,
    /// A provider or the model answered with a failure.
    ApiRequestFailed(String),
    /// A credential is not configured.
    EnvVarNotSet(String),
    /// A provider's answer could not be read.
    ResponseParseError(String),
    /// The HTTP transport failed; holds its description.
    RequestError(String),
    /// Reading or writing the terminal failed; holds its description.
    IoError(String),
    /// A JSON document could not be read or written; holds its description.
    JsonError(String),
}

/// The mathematical value of an `AppError`.
pub enum Fault {
    MissingParameter(Seq<char>),
    UnsupportedToolCall(Seq<char>),
    InvalidArguments,
    ApiRequestFailed(Seq<char>),
    EnvVarNotSet(Seq<char>),
    ResponseParseError(Seq<char>),
    RequestError(Seq<char>),
    IoError(Seq<char>),
    JsonError(Seq<char>),
}

impl View for AppError {
    type V = Fault;

    open spec fn view(&self) -> Fault {
        match self {
            AppError::MissingParameter(s) => Fault::MissingParameter(s@),
            AppError::UnsupportedToolCall(s) => Fault::UnsupportedToolCall(s@),
            AppError::InvalidArguments => Fault::InvalidArguments,
            AppError::ApiRequestFailed(s) => Fault::ApiRequestFailed(s@),
            AppError::EnvVarNotSet(s) => Fault::EnvVarNotSet(s@),
            AppError::ResponseParseError(s) => Fault::ResponseParseError(s@),
            AppError::RequestError(s) => Fault::RequestError(s@),
            AppError::IoError(s) => Fault::IoError(s@),
            AppError::JsonError(s) => Fault::JsonError(s@),
        }
    }
}

/// The human-readable description of a fault: a fixed prefix, then its detail.
pub open spec fn message_of(f: Fault) -> Seq<char> {
    match f {
        Fault::MissingParameter(s) => "missing parameter: "@ + s,
        Fault::UnsupportedToolCall(s) => "unsupported tool: "@ + s,
        Fault::InvalidArguments => "invalid arguments"@,
        Fault::ApiRequestFailed(s) => "API request failed: "@ + s,
        Fault::EnvVarNotSet(s) => "Environment variable not set: "@ + s,
        Fault::ResponseParseError(s) => "Failed to parse API response: "@ + s,
        Fault::RequestError(s) => "HTTP request error: "@ + s,
        Fault::IoError(s) => "I/O error: "@ + s,
        Fault::JsonError(s) => "JSON error: "@ + s,
    }
}

fn prefixed(prefix: &str, detail: &String) -> (r: String)
    ensures
        r@ == prefix@ + detail@,
{
    let mut s = String::from_str(prefix);
    s.append(detail.as_str());
    s
}

impl AppError {
    /// The description of this error, as it is shown to the model and the user.
    pub fn message(&self) -> (r: String)
        ensures
            r@ == message_of(self@),
    {
        match self {
            AppError::MissingParameter(s) => prefixed("missing parameter: ", s),
            AppError::UnsupportedToolCall(s) => prefixed("unsupported tool: ", s),
            AppError::InvalidArguments => String::from_str("invalid arguments"),
            AppError::ApiRequestFailed(s) => prefixed("API request failed: ", s),
            AppError::EnvVarNotSet(s) => prefixed("Environment variable not set: ", s),
            AppError::ResponseParseError(s) => prefixed("Failed to parse API response: ", s),
            AppError::RequestError(s) => prefixed("HTTP request error: ", s),
            AppError::IoError(s) => prefixed("I/O error: ", s),
            AppError::JsonError(s) => prefixed("JSON error: ", s),
        }
    }
}

} // verus!
