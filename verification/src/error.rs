//! The one error type of the library.
//!
//! Whatever goes wrong with a call is either a fault of the exchange over
//! HTTP (the transport failed, the status was not a success, the body could
//! not be read) or a fault in building the address. Each cause is kept as
//! it came; nothing is recovered here.

use vstd::prelude::*;
use vstd::string::to_string_from_display_ensures;

verus! {

/// Why a response body could not be read as the expected value.
#[derive(Debug, Clone, PartialEq, Eq)]
pub enum DecodeError {
    /// The body is not a JSON text; the parser's description of the fault.
    Syntax(String),
    /// The body is a JSON text of another shape than the call expects.
    Shape,
}

/// What a `DecodeError` stands for.
pub enum DecodeErrorModel {
    Syntax(Seq<char>),
    Shape,
}

impl DeepView for DecodeError {
    type V = DecodeErrorModel;

    open spec fn deep_view(&self) -> DecodeErrorModel {
        match self {
            DecodeError::Syntax(m) => DecodeErrorModel::Syntax(m@),
            DecodeError::Shape => DecodeErrorModel::Shape,
        }
    }
}

/// A fault of the exchange over HTTP.
#[derive(Debug, Clone, PartialEq, Eq)]
pub enum HttpError {
    /// The transport could not complete the exchange; its own description.
    Transport(String),
    /// The response came with a status outside 200 to 299.
    Status(u16),
    /// The response came with a body that could not be read.
    Decode(DecodeError),
}

/// What an `HttpError` stands for.
pub enum HttpErrorModel {
    Transport(Seq<char>),
    Status(u16),
    Decode(DecodeErrorModel),
}

impl DeepView for HttpError {
    type V = HttpErrorModel;

    open spec fn deep_view(&self) -> HttpErrorModel {
        match self {
            HttpError::Transport(m) => HttpErrorModel::Transport(m@),
            HttpError::Status(code) => HttpErrorModel::Status(*code),
            HttpError::Decode(e) => HttpErrorModel::Decode(e.deep_view()),
        }
    }
}

/// Any fault of a call.
#[derive(Debug)]
pub enum Error {
    HttpError(HttpError),
    Url(url::ParseError),
}

/// What an `Error` stands for.
pub enum ErrorModel {
    HttpError(HttpErrorModel),
    Url(url::ParseError),
}

impl DeepView for Error {
    type V = ErrorModel;

    open spec fn deep_view(&self) -> ErrorModel {
        match self {
            Error::HttpError(e) => ErrorModel::HttpError(e.deep_view()),
            Error::Url(e) => ErrorModel::Url(*e),
        }
    }
}

impl From<HttpError> for Error {
    fn from(err: HttpError) -> (r: Error) {
        Error::HttpError(err)
    }
}

impl vstd::std_specs::convert::FromSpecImpl<HttpError> for Error {
    open spec fn obeys_from_spec() -> bool {
        true
    }

    open spec fn from_spec(err: HttpError) -> Error {
        Error::HttpError(err)
    }
}

impl From<url::ParseError> for Error {
    fn from(err: url::ParseError) -> (r: Error) {
        Error::Url(err)
    }
}

impl vstd::std_specs::convert::FromSpecImpl<url::ParseError> for Error {
    open spec fn obeys_from_spec() -> bool {
        true
    }

    open spec fn from_spec(err: url::ParseError) -> Error {
        Error::Url(err)
    }
}

impl Error {
    /// Whether `text` describes this error: it is the description that the
    /// cause gives of itself, where the cause has one.
    pub open spec fn described_by(self, text: String) -> bool {
        match self {
            Error::Url(e) => to_string_from_display_ensures::<url::ParseError>(&e, text),
            Error::HttpError(HttpError::Transport(m)) => text@ == m@,
            Error::HttpError(HttpError::Status(code)) => to_string_from_display_ensures::<u16>(
                &code,
                text,
            ),
            Error::HttpError(HttpError::Decode(DecodeError::Syntax(m))) => text@ == m@,
            Error::HttpError(HttpError::Decode(DecodeError::Shape)) => text@
                == "the response body has not the expected shape"@,
        }
    }

    /// The error in words.
    pub fn message(&self) -> (r: String)
        ensures
            self.described_by(r),
    {
        match self {
            Error::Url(e) => e.to_string(),
            Error::HttpError(HttpError::Transport(m)) => m.clone(),
            Error::HttpError(HttpError::Status(code)) => code.to_string(),
            Error::HttpError(HttpError::Decode(DecodeError::Syntax(m))) => m.clone(),
            Error::HttpError(HttpError::Decode(DecodeError::Shape)) => String::from_str(
                "the response body has not the expected shape",
            ),
        }
    }

    /// The status that the response came with, if that is the fault.
    pub fn status(&self) -> (r: Option<u16>)
        ensures
            r == match *self {
                Error::HttpError(HttpError::Status(code)) => Some(code),
                _ => None,
            },
    {
        match self {
            Error::HttpError(HttpError::Status(code)) => Some(*code),
            _ => None,
        }
    }
}

} // verus!
