//! The transport adapter: what to send for a path, and what a response is
//! worth.
//!
//! The adapter resolves a relative path against its base address and says
//! which request is to be made; it makes none. Whoever runs the transport
//! sends the request as it is described here, follows no redirect, and
//! hands back the status and the body.

use vstd::prelude::*;
use crate::address::{resolve, url_join, url_text};
use crate::error::{DecodeError, DecodeErrorModel, Error, ErrorModel, HttpError, HttpErrorModel};
use crate::json::{json_parse, parse_document, Json};
use crate::wire::{Decode, Encode};

verus! {

/// Whether the transport may follow a redirect: never. A response with a
/// status from 300 to 399 comes back as it is and fails the call.
pub const FOLLOW_REDIRECTS: bool = false;

/// The verb of a request.
#[derive(Debug, Clone, Copy, PartialEq, Eq, Structural)]
pub enum Method {
    Get,
    Put,
    Post,
    Delete,
}

/// A request that is to be made.
#[derive(Debug, Clone, PartialEq, Eq)]
pub struct Request {
    pub method: Method,
    /// The absolute address.
    pub url: String,
    /// Whether the request carries the header `Accept: application/json`.
    pub accept_json: bool,
    /// The body, as text; `None` where the request has none.
    pub body: Option<String>,
}

/// What a `Request` stands for.
pub struct RequestModel {
    pub method: Method,
    pub url: Seq<char>,
    pub accept_json: bool,
    pub body: Option<Seq<char>>,
}

impl DeepView for Request {
    type V = RequestModel;

    open spec fn deep_view(&self) -> RequestModel {
        RequestModel {
            method: self.method,
            url: self.url@,
            accept_json: self.accept_json,
            body: self.body.deep_view(),
        }
    }
}

/// A response as it came back.
#[derive(Debug, Clone, PartialEq, Eq)]
pub struct Response {
    pub status: u16,
    pub body: Vec<u8>,
}

/// The request for `path` under the base address `base`: the address is
/// `path` resolved against `base`, and only a `Get` asks for JSON. Where
/// the path cannot be resolved, there is no request but the fault of the
/// address.
pub open spec fn planned(
    method: Method,
    base: Seq<char>,
    path: Seq<char>,
    body: Option<Seq<char>>,
) -> Result<RequestModel, ErrorModel> {
    match url_join(base, path) {
        Ok(url) => Ok(RequestModel { method, url, accept_json: method is Get, body }),
        Err(e) => Err(ErrorModel::Url(e)),
    }
}

/// Whether the outcome `r` is what `plan` says.
pub open spec fn issued(r: Result<Request, Error>, plan: Result<RequestModel, ErrorModel>) -> bool {
    match r {
        Ok(request) => plan == Ok::<RequestModel, ErrorModel>(request.deep_view()),
        Err(e) => plan == Err::<RequestModel, ErrorModel>(e.deep_view()),
    }
}

/// Whether a status is a success: 200 to 299.
pub open spec fn is_success(status: u16) -> bool {
    200 <= status <= 299
}

/// What a body is read as, for a type with a JSON shape: the body must be
/// a JSON text, and the value that it holds must have the shape.
pub open spec fn read_json<T: Decode>(body: Seq<u8>) -> Result<T::V, DecodeErrorModel> {
    match json_parse(body) {
        Ok(j) => match T::decoded(j) {
            Some(x) => Ok(x),
            None => Err(DecodeErrorModel::Shape),
        },
        Err(m) => Err(DecodeErrorModel::Syntax(m)),
    }
}

/// Reads a body as a `T`.
pub fn decode_body<T: Decode>(body: &[u8]) -> (r: Result<T, DecodeError>)
    ensures
        match r {
            Ok(x) => read_json::<T>(body@) == Ok::<T::V, DecodeErrorModel>(x.deep_view()),
            Err(e) => read_json::<T>(body@) == Err::<T::V, DecodeErrorModel>(e.deep_view()),
        },
{
    match parse_document(body) {
        Ok(v) => match T::from_json(&v) {
            Some(x) => Ok(x),
            None => Err(DecodeError::Shape),
        },
        Err(m) => Err(DecodeError::Syntax(m)),
    }
}

/// A type that a response body can be read as.
pub trait Reply: Sized + DeepView {
    /// What `body` is read as.
    spec fn read(body: Seq<u8>) -> Result<Self::V, DecodeErrorModel>;

    fn from_body(body: &[u8]) -> (r: Result<Self, DecodeError>)
        ensures
            match r {
                Ok(x) => Self::read(body@) == Ok::<Self::V, DecodeErrorModel>(x.deep_view()),
                Err(e) => Self::read(body@) == Err::<Self::V, DecodeErrorModel>(e.deep_view()),
            },
    ;
}

/// Nothing is expected of the body, and nothing of it is read.
impl Reply for () {
    open spec fn read(body: Seq<u8>) -> Result<(), DecodeErrorModel> {
        Ok(())
    }

    fn from_body(body: &[u8]) -> (r: Result<(), DecodeError>) {
        Ok(())
    }
}

/// Every type with a JSON shape is read from a body that is a JSON text.
impl<T: Decode> Reply for T {
    open spec fn read(body: Seq<u8>) -> Result<T::V, DecodeErrorModel> {
        read_json::<T>(body)
    }

    fn from_body(body: &[u8]) -> (r: Result<T, DecodeError>) {
        decode_body::<T>(body)
    }
}

/// What a response is worth to a call that expects a `T`: with a status
/// that is no success, the fault is the status, whatever the body holds;
/// else it is what the body reads as.
pub open spec fn received<T: Reply>(status: u16, body: Seq<u8>) -> Result<T::V, ErrorModel> {
    if is_success(status) {
        match T::read(body) {
            Ok(x) => Ok(x),
            Err(e) => Err(ErrorModel::HttpError(HttpErrorModel::Decode(e))),
        }
    } else {
        Err(ErrorModel::HttpError(HttpErrorModel::Status(status)))
    }
}

/// A status outside 200 to 299 fails the call with that very status,
/// whatever the body holds and whatever the call expects.
pub proof fn failure_status_fails_the_call<T: Reply>(status: u16, body: Seq<u8>)
    requires
        !is_success(status),
    ensures
        received::<T>(status, body) == Err::<T::V, ErrorModel>(
            ErrorModel::HttpError(HttpErrorModel::Status(status)),
        ),
{
}

/// With a status from 200 to 299 and a body that holds a value of the
/// expected shape, the call gives the value that the body reads as, whole.
pub proof fn success_gives_the_decoded_value<T: Decode>(
    status: u16,
    body: Seq<u8>,
    j: Json,
    x: T::V,
)
    requires
        is_success(status),
        json_parse(body) == Ok::<Json, Seq<char>>(j),
        T::decoded(j) == Some(x),
    ensures
        received::<T>(status, body) == Ok::<T::V, ErrorModel>(x),
{
}

/// With a status from 200 to 299 and a body that holds what was written
/// for `x`, the call gives `x` back: nothing is lost on the way.
pub proof fn written_value_is_received<T: Encode>(status: u16, body: Seq<u8>, x: T::V)
    requires
        is_success(status),
        json_parse(body) == Ok::<Json, Seq<char>>(T::encoded(x)),
    ensures
        received::<T>(status, body) == Ok::<T::V, ErrorModel>(x),
{
    T::round_trip(x);
}

/// With a status from 200 to 299 and a body that is no JSON text, or one
/// of another shape, a call that reads JSON fails with a decode error and
/// gives no value: the parser's fault for a text that is no JSON, `Shape`
/// for a value of another shape.
pub proof fn unreadable_body_fails_the_call<T: Decode>(status: u16, body: Seq<u8>)
    requires
        is_success(status),
        json_parse(body) matches Ok(j) ==> T::decoded(j) is None,
    ensures
        received::<T>(status, body) == Err::<T::V, ErrorModel>(
            ErrorModel::HttpError(
                HttpErrorModel::Decode(
                    match json_parse(body) {
                        Ok(_) => DecodeErrorModel::Shape,
                        Err(m) => DecodeErrorModel::Syntax(m),
                    },
                ),
            ),
        ),
{
}

/// A call that expects nothing succeeds on every status from 200 to 299,
/// whatever the body holds.
pub proof fn success_without_reply(status: u16, body: Seq<u8>)
    requires
        is_success(status),
    ensures
        received::<()>(status, body) == Ok::<(), ErrorModel>(()),
{
}

impl Response {
    /// The response itself where its status is a success, else the fault
    /// of the status.
    pub fn error_for_status(self) -> (r: Result<Response, Error>)
        ensures
            is_success(self.status) ==> r == Ok::<Response, Error>(self),
            !is_success(self.status) ==> r == Err::<Response, Error>(
                Error::HttpError(HttpError::Status(self.status)),
            ),
    {
        if 200 <= self.status && self.status <= 299 {
            Ok(self)
        } else {
            let status = self.status;
            Err(Error::HttpError(HttpError::Status(status)))
        }
    }

    /// The body read as a `T`, whatever the status is.
    pub fn json<T: Reply>(&self) -> (r: Result<T, Error>)
        ensures
            match r {
                Ok(x) => T::read(self.body@) == Ok::<T::V, DecodeErrorModel>(x.deep_view()),
                Err(e) => T::read(self.body@) matches Err(d) && e.deep_view()
                    == ErrorModel::HttpError(HttpErrorModel::Decode(d)),
            },
    {
        match T::from_body(self.body.as_slice()) {
            Ok(x) => Ok(x),
            Err(e) => Err(Error::HttpError(HttpError::Decode(e))),
        }
    }

    /// What the response is worth to a call that expects a `T`.
    pub fn receive<T: Reply>(&self) -> (r: Result<T, Error>)
        ensures
            match r {
                Ok(x) => received::<T>(self.status, self.body@) == Ok::<T::V, ErrorModel>(
                    x.deep_view(),
                ),
                Err(e) => received::<T>(self.status, self.body@) == Err::<T::V, ErrorModel>(
                    e.deep_view(),
                ),
            },
    {
        if 200 <= self.status && self.status <= 299 {
            self.json::<T>()
        } else {
            Err(Error::HttpError(HttpError::Status(self.status)))
        }
    }
}

/// The base address of the controller's interface.
#[derive(Debug)]
pub struct HttpClient {
    base_url: url::Url,
}

impl HttpClient {
    /// The base address, as text.
    pub closed spec fn base(&self) -> Seq<char> {
        url_text(self.base_url)
    }

    pub fn new(base_url: url::Url) -> (r: HttpClient)
        ensures
            r.base() == url_text(base_url),
    {
        HttpClient { base_url }
    }

    /// The request with the verb `method` for `path`.
    fn request(&self, method: Method, path: &str, body: Option<String>) -> (r: Result<Request, Error>)
        ensures
            issued(r, planned(method, self.base(), path@, body.deep_view())),
    {
        match resolve(&self.base_url, path) {
            Ok(url) => {
                let accept_json = match method {
                    Method::Get => true,
                    _ => false,
                };
                Ok(Request { method, url, accept_json, body })
            },
            Err(e) => Err(Error::Url(e)),
        }
    }

    pub fn post(&self, path: &str, body: String) -> (r: Result<Request, Error>)
        ensures
            issued(r, planned(Method::Post, self.base(), path@, Some(body@))),
    {
        self.request(Method::Post, path, Some(body))
    }

    pub fn get(&self, path: &str) -> (r: Result<Request, Error>)
        ensures
            issued(r, planned(Method::Get, self.base(), path@, None)),
    {
        self.request(Method::Get, path, None)
    }

    pub fn delete(&self, path: &str) -> (r: Result<Request, Error>)
        ensures
            issued(r, planned(Method::Delete, self.base(), path@, None)),
    {
        self.request(Method::Delete, path, None)
    }

    pub fn put(&self, path: &str, body: String) -> (r: Result<Request, Error>)
        ensures
            issued(r, planned(Method::Put, self.base(), path@, Some(body@))),
    {
        self.request(Method::Put, path, Some(body))
    }
}

} // verus!
