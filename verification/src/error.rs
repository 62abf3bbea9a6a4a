//! Error values of the bridge.

use vstd::prelude::*;

verus! {

/// Why a message could not be carried across the host/guest boundary.
#[derive(Clone, Copy, Debug, PartialEq, Eq, Structural)]
pub enum CodecError {
    /// A native header value holds bytes that cannot be shown to the guest as text.
    HeaderNotText,
    /// The guest's request method is not an HTTP method.
    InvalidMethod,
    /// The guest's request target does not parse as a URI.
    InvalidUri,
    /// A guest header has a name or a value that HTTP does not admit.
    InvalidHeader,
    /// The guest's status is not an HTTP status code.
    InvalidStatus,
}

/// How a guest value departs from the shape the bridge expects. Each is a protocol violation
/// that guest code can catch as an exception carrying [`ShapeError::message`].
#[derive(Clone, Copy, Debug, PartialEq, Eq, Structural)]
pub enum ShapeError {
    /// A message object was expected and something else was given.
    NotAnObject,
    /// `method` is present and is not a string.
    MethodNotText,
    /// `uri` is present and is not a string.
    UriNotText,
    /// `headers` is missing or is not an object.
    HeadersNotObject,
    /// A header value is not a string.
    HeaderValueNotText,
    /// `body_handle` is present and is not a 32-bit integer.
    BodyHandleNotInt,
    /// `body` is present and is not an array buffer.
    BodyNotBytes,
    /// Both a nonzero `body_handle` and a non-empty `body` are set.
    BodyAmbiguous,
    /// A fetch-options object was expected and something else was given.
    OptionsNotObject,
    /// `redirect` is present and is not a string.
    RedirectNotText,
}

impl ShapeError {
    /// The text of the exception raised for this violation.
    pub open spec fn message_text(self) -> Seq<char> {
        match self {
            ShapeError::NotAnObject => "JsHttpObject need from an object"@,
            ShapeError::MethodNotText => "method is not a string"@,
            ShapeError::UriNotText => "uri is not a string"@,
            ShapeError::HeadersNotObject => "headers is not an object"@,
            ShapeError::HeaderValueNotText => "header value is not a string"@,
            ShapeError::BodyHandleNotInt => "body_handle is not an int"@,
            ShapeError::BodyNotBytes => "body is not an arraybuffer?"@,
            ShapeError::BodyAmbiguous => "body and body_handle are both set"@,
            ShapeError::OptionsNotObject => "JsFetchOptions need from an object"@,
            ShapeError::RedirectNotText => "redirect is not a string"@,
        }
    }

    /// The text of the exception raised for this violation.
    pub fn message(&self) -> (r: String)
        ensures
            r@ == self.message_text(),
    {
        match self {
            ShapeError::NotAnObject => "JsHttpObject need from an object".to_owned(),
            ShapeError::MethodNotText => "method is not a string".to_owned(),
            ShapeError::UriNotText => "uri is not a string".to_owned(),
            ShapeError::HeadersNotObject => "headers is not an object".to_owned(),
            ShapeError::HeaderValueNotText => "header value is not a string".to_owned(),
            ShapeError::BodyHandleNotInt => "body_handle is not an int".to_owned(),
            ShapeError::BodyNotBytes => "body is not an arraybuffer?".to_owned(),
            ShapeError::BodyAmbiguous => "body and body_handle are both set".to_owned(),
            ShapeError::OptionsNotObject => "JsFetchOptions need from an object".to_owned(),
            ShapeError::RedirectNotText => "redirect is not a string".to_owned(),
        }
    }
}

impl CodecError {
    /// A one-line description of the error.
    pub open spec fn message_text(self) -> Seq<char> {
        match self {
            CodecError::HeaderNotText => "header value is not visible text"@,
            CodecError::InvalidMethod => "invalid HTTP method"@,
            CodecError::InvalidUri => "invalid uri"@,
            CodecError::InvalidHeader => "invalid HTTP header"@,
            CodecError::InvalidStatus => "invalid status code"@,
        }
    }

    /// A one-line description of the error.
    pub fn message(&self) -> (r: String)
        ensures
            r@ == self.message_text(),
    {
        match self {
            CodecError::HeaderNotText => "header value is not visible text".to_owned(),
            CodecError::InvalidMethod => "invalid HTTP method".to_owned(),
            CodecError::InvalidUri => "invalid uri".to_owned(),
            CodecError::InvalidHeader => "invalid HTTP header".to_owned(),
            CodecError::InvalidStatus => "invalid status code".to_owned(),
        }
    }
}

/// An error that the interpreter reports to the host.
pub enum EngineError {
    /// Guest code threw. Message and stack are those of the exception, where it has them.
    Exception { message: Option<String>, stack: Option<String> },
    /// A native function was called with too few arguments.
    MissingArgs { expected: usize, given: usize },
    /// Any other failure, with the interpreter's diagnostic text.
    Other(String),
}

/// Mathematical counterpart of [`EngineError`].
pub ghost enum EngineErrorModel {
    Exception { message: Option<Seq<char>>, stack: Option<Seq<char>> },
    MissingArgs { expected: usize, given: usize },
    Other(Seq<char>),
}

/// The text of an optional string.
pub open spec fn text_of(s: Option<String>) -> Option<Seq<char>> {
    match s {
        Some(t) => Some(t@),
        None => None,
    }
}

impl View for EngineError {
    type V = EngineErrorModel;

    open spec fn view(&self) -> EngineErrorModel {
        match self {
            EngineError::Exception { message, stack } => EngineErrorModel::Exception {
                message: text_of(*message),
                stack: text_of(*stack),
            },
            EngineError::MissingArgs { expected, given } => EngineErrorModel::MissingArgs {
                expected: *expected,
                given: *given,
            },
            EngineError::Other(text) => EngineErrorModel::Other(text@),
        }
    }
}

impl EngineError {
    /// An exception that carries `message` and no stack.
    pub fn thrown(message: String) -> (r: EngineError)
        ensures
            r@ == (EngineErrorModel::Exception { message: Some(message@), stack: None }),
    {
        EngineError::Exception { message: Some(message), stack: None }
    }
}

/// A failure of a native operation behind a hostcall.
pub enum HostError {
    /// The failure is an interpreter error and reaches the guest as it is.
    Engine(EngineError),
    /// Any other failure, with its text.
    Message(String),
}

} // verus!
