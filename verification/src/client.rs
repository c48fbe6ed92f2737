//! The typed calls of the controller's interface.
//!
//! Each call of `Client` says which request is to be made and holds the
//! type that the response is read as. The request is sent elsewhere;
//! `Call::complete` then turns the response into the value of the call or
//! into its error.

use core::marker::PhantomData;
use vstd::prelude::*;
use crate::address::url_parse;
use crate::error::{Error, ErrorModel};
use crate::http_client::{planned, received, HttpClient, Method, Reply, Request, RequestModel, Response};
use crate::json::{json_text, single, print, value_json, Json};
use crate::models::{Animations, Authorization, Brightness, On, PanelInfo, Range, SetRange};
use crate::wire::Encode;

verus! {

/// Whether the panels are to be lit.
#[derive(Debug, Clone, Copy, PartialEq, Eq)]
pub enum NanoleafState {
    On,
    Off,
}

impl NanoleafState {
    /// The payload that sets this state.
    pub open spec fn as_on(self) -> On {
        On { value: self is On }
    }
}

/// A call that is under way: the request to make, and in `T` the type of
/// the value that the response is read as.
#[derive(Debug)]
pub struct Call<T> {
    pub request: Request,
    pub reply: PhantomData<T>,
}

impl<T: Reply> Call<T> {
    /// The value of the call, or its error, once the response is there: a
    /// status outside 200 to 299 fails the call with that status whatever
    /// the body holds; else the body is read as a `T`, and fails the call
    /// where it cannot be.
    pub fn complete(&self, response: &Response) -> (r: Result<T, Error>)
        ensures
            match r {
                Ok(x) => received::<T>(response.status, response.body@) == Ok::<T::V, ErrorModel>(
                    x.deep_view(),
                ),
                Err(e) => received::<T>(response.status, response.body@) == Err::<T::V, ErrorModel>(
                    e.deep_view(),
                ),
            },
    {
        response.receive::<T>()
    }
}

/// Whether the outcome `r` of a call is what `plan` says.
pub open spec fn called<T>(r: Result<Call<T>, Error>, plan: Result<RequestModel, ErrorModel>) -> bool {
    match r {
        Ok(call) => plan == Ok::<RequestModel, ErrorModel>(call.request.deep_view()),
        Err(e) => plan == Err::<RequestModel, ErrorModel>(e.deep_view()),
    }
}

/// What a call asks for is settled by its plan, and so by the base address
/// and the call's own arguments: two outcomes that meet one plan are the
/// same request, or the same error. No other call has a part in it.
pub proof fn calls_of_one_plan_agree<T, U>(
    first: Result<Call<T>, Error>,
    second: Result<Call<U>, Error>,
    plan: Result<RequestModel, ErrorModel>,
)
    requires
        called(first, plan),
        called(second, plan),
    ensures
        match (first, second) {
            (Ok(a), Ok(b)) => a.request.deep_view() == b.request.deep_view(),
            (Err(a), Err(b)) => a.deep_view() == b.deep_view(),
            _ => false,
        },
{
}

/// The base address for the controller at the socket address `addr`.
pub open spec fn base_text(addr: Seq<char>) -> Seq<char> {
    "http://"@ + addr + "/api/v1/"@
}

/// The body of a request that sets `key` to `value`: the text of the
/// object with that one member.
pub open spec fn envelope(key: Seq<char>, value: Json) -> Seq<char> {
    json_text(Json::single(key, value))
}

/// The client of one controller.
#[derive(Debug)]
pub struct Client {
    inner: HttpClient,
}

impl Client {
    /// The base address, as text.
    pub closed spec fn base(&self) -> Seq<char> {
        self.inner.base()
    }

    /// The client for the controller at `addr`, a socket address in text
    /// (`10.0.0.5:16021`). Fails where `http://<addr>/api/v1/` is no address.
    pub fn with_socketaddr(addr: &str) -> (r: Result<Client, Error>)
        ensures
            match r {
                Ok(client) => url_parse(base_text(addr@)) == Ok::<Seq<char>, url::ParseError>(
                    client.base(),
                ),
                Err(e) => url_parse(base_text(addr@)) matches Err(cause) && e.deep_view()
                    == ErrorModel::Url(cause),
            },
    {
        let text = String::from_str("http://").concat(addr).concat("/api/v1/");
        match url::Url::parse(text.as_str()) {
            Ok(base_url) => Ok(Client { inner: HttpClient::new(base_url) }),
            Err(e) => Err(Error::Url(e)),
        }
    }

    // ====================
    // Users
    // ====================

    /// Pairs with the controller: `POST new` with an empty body.
    pub fn add_user(&self) -> (r: Result<Call<Authorization>, Error>)
        ensures
            called(r, planned(Method::Post, self.base(), "new"@, Some(Seq::<char>::empty()))),
    {
        self.post_value("new", String::new())
    }

    /// Revokes a token: `DELETE <token>`.
    pub fn delete_user(&self, token: &str) -> (r: Result<Call<()>, Error>)
        ensures
            called(r, planned(Method::Delete, self.base(), token@, None)),
    {
        self.delete_value(token)
    }

    // ====================
    // Panel Info
    // ====================

    /// `GET <token>`.
    pub fn get_panels(&self, token: &str) -> (r: Result<Call<PanelInfo>, Error>)
        ensures
            called(r, planned(Method::Get, self.base(), token@, None)),
    {
        self.get_value(token)
    }

    /// Makes the panels flash: `PUT <token>/identify` with an empty body.
    pub fn identify(&self, token: &str) -> (r: Result<Call<()>, Error>)
        ensures
            called(
                r,
                planned(
                    Method::Put,
                    self.base(),
                    token@ + "/identify"@,
                    Some(Seq::<char>::empty()),
                ),
            ),
    {
        let path = String::from_str(token).concat("/identify");
        wrap(self.inner.put(path.as_str(), String::new()))
    }

    // ====================
    // Panel State
    // ====================

    /// `GET <token>/state/on`.
    pub fn get_state(&self, token: &str) -> (r: Result<Call<On>, Error>)
        ensures
            called(r, planned(Method::Get, self.base(), token@ + "/state/on"@, None)),
    {
        let path = String::from_str(token).concat("/state/on");
        self.get_value(path.as_str())
    }

    /// `PUT <token>/state` with `{"on": {"value": ..}}`.
    pub fn set_state(&self, token: &str, state: NanoleafState) -> (r: Result<Call<()>, Error>)
        ensures
            called(
                r,
                planned(
                    Method::Put,
                    self.base(),
                    token@ + "/state"@,
                    Some(envelope("on"@, On::encoded(state.as_on()))),
                ),
            ),
    {
        let val = match state {
            NanoleafState::On => true,
            NanoleafState::Off => false,
        };
        let on = On { value: val };
        let path = String::from_str(token).concat("/state");
        self.put_value(path.as_str(), "on", on.to_json())
    }

    // ====================
    // Brightness
    // ====================

    /// `GET <token>/state/brightness`.
    pub fn get_brightness(&self, token: &str) -> (r: Result<Call<Range>, Error>)
        ensures
            called(r, planned(Method::Get, self.base(), token@ + "/state/brightness"@, None)),
    {
        let path = String::from_str(token).concat("/state/brightness");
        self.get_value(path.as_str())
    }

    /// `PUT <token>/state/brightness` with `{"brightness": ..}`.
    pub fn set_brightness(&self, token: &str, brightness: Brightness) -> (r: Result<
        Call<()>,
        Error,
    >)
        ensures
            called(
                r,
                planned(
                    Method::Put,
                    self.base(),
                    token@ + "/state/brightness"@,
                    Some(envelope("brightness"@, Brightness::encoded(brightness))),
                ),
            ),
    {
        let path = String::from_str(token).concat("/state/brightness");
        self.put_value(path.as_str(), "brightness", brightness.to_json())
    }

    // ====================
    // Hue
    // ====================

    /// `GET <token>/state/hue`.
    pub fn get_hue(&self, token: &str) -> (r: Result<Call<Range>, Error>)
        ensures
            called(r, planned(Method::Get, self.base(), token@ + "/state/hue"@, None)),
    {
        let path = String::from_str(token).concat("/state/hue");
        self.get_value(path.as_str())
    }

    /// `PUT <token>/state/hue` with `{"hue": ..}`.
    pub fn set_hue(&self, token: &str, hue: SetRange) -> (r: Result<Call<()>, Error>)
        ensures
            called(
                r,
                planned(
                    Method::Put,
                    self.base(),
                    token@ + "/state/hue"@,
                    Some(envelope("hue"@, SetRange::encoded(hue))),
                ),
            ),
    {
        let path = String::from_str(token).concat("/state/hue");
        self.put_value(path.as_str(), "hue", hue.to_json())
    }

    // ====================
    // Saturation
    // ====================

    /// `GET <token>/state/sat`.
    pub fn get_saturation(&self, token: &str) -> (r: Result<Call<Range>, Error>)
        ensures
            called(r, planned(Method::Get, self.base(), token@ + "/state/sat"@, None)),
    {
        let path = String::from_str(token).concat("/state/sat");
        self.get_value(path.as_str())
    }

    /// `PUT <token>/state/sat` with `{"sat": ..}`.
    pub fn set_saturation(&self, token: &str, sat: SetRange) -> (r: Result<Call<()>, Error>)
        ensures
            called(
                r,
                planned(
                    Method::Put,
                    self.base(),
                    token@ + "/state/sat"@,
                    Some(envelope("sat"@, SetRange::encoded(sat))),
                ),
            ),
    {
        let path = String::from_str(token).concat("/state/sat");
        self.put_value(path.as_str(), "sat", sat.to_json())
    }

    // ====================
    // Color Temperature
    // ====================

    /// `GET <token>/state/ct`.
    pub fn get_ct(&self, token: &str) -> (r: Result<Call<Range>, Error>)
        ensures
            called(r, planned(Method::Get, self.base(), token@ + "/state/ct"@, None)),
    {
        let path = String::from_str(token).concat("/state/ct");
        self.get_value(path.as_str())
    }

    /// `PUT <token>/state/ct` with `{"ct": ..}`.
    pub fn set_ct(&self, token: &str, ct: SetRange) -> (r: Result<Call<()>, Error>)
        ensures
            called(
                r,
                planned(
                    Method::Put,
                    self.base(),
                    token@ + "/state/ct"@,
                    Some(envelope("ct"@, SetRange::encoded(ct))),
                ),
            ),
    {
        let path = String::from_str(token).concat("/state/ct");
        self.put_value(path.as_str(), "ct", ct.to_json())
    }

    // ====================
    // Color Mode
    // ====================

    /// `GET <token>/effects/select`: the same call as `get_effect`.
    pub fn get_color_mode(&self, token: &str) -> (r: Result<Call<String>, Error>)
        ensures
            called(r, planned(Method::Get, self.base(), token@ + "/effects/select"@, None)),
    {
        let path = String::from_str(token).concat("/effects/select");
        self.get_value(path.as_str())
    }

    // ====================
    // Effects
    // ====================

    /// `GET <token>/effects/select`.
    pub fn get_effect(&self, token: &str) -> (r: Result<Call<String>, Error>)
        ensures
            called(r, planned(Method::Get, self.base(), token@ + "/effects/select"@, None)),
    {
        let path = String::from_str(token).concat("/effects/select");
        self.get_value(path.as_str())
    }

    /// `GET <token>/effects/effectsList`.
    pub fn list_effects(&self, token: &str) -> (r: Result<Call<Vec<String>>, Error>)
        ensures
            called(r, planned(Method::Get, self.base(), token@ + "/effects/effectsList"@, None)),
    {
        let path = String::from_str(token).concat("/effects/effectsList");
        self.get_value(path.as_str())
    }

    /// `PUT <token>/effects` with `{"command": "requestAll"}`.
    pub fn get_all_effects(&self, token: &str) -> (r: Result<Call<Animations>, Error>)
        ensures
            called(
                r,
                planned(
                    Method::Put,
                    self.base(),
                    token@ + "/effects"@,
                    Some(envelope("command"@, Json::Text("requestAll"@))),
                ),
            ),
    {
        let path = String::from_str(token).concat("/effects");
        let command = String::from_str("requestAll");
        self.put_value(path.as_str(), "command", command.to_json())
    }

    /// `PUT <token>/effects` with `{"select": <effect>}`.
    pub fn set_effect(&self, token: &str, effect: &str) -> (r: Result<Call<()>, Error>)
        ensures
            called(
                r,
                planned(
                    Method::Put,
                    self.base(),
                    token@ + "/effects"@,
                    Some(envelope("select"@, Json::Text(effect@))),
                ),
            ),
    {
        let path = String::from_str(token).concat("/effects");
        let name = String::from_str(effect);
        self.put_value(path.as_str(), "select", name.to_json())
    }

    // ====================
    // Helpers
    // ====================

    fn get_value<T: Reply>(&self, path: &str) -> (r: Result<Call<T>, Error>)
        ensures
            called(r, planned(Method::Get, self.base(), path@, None)),
    {
        wrap(self.inner.get(path))
    }

    fn delete_value(&self, path: &str) -> (r: Result<Call<()>, Error>)
        ensures
            called(r, planned(Method::Delete, self.base(), path@, None)),
    {
        wrap(self.inner.delete(path))
    }

    fn post_value<T: Reply>(&self, path: &str, body: String) -> (r: Result<Call<T>, Error>)
        ensures
            called(r, planned(Method::Post, self.base(), path@, Some(body@))),
    {
        wrap(self.inner.post(path, body))
    }

    fn put_value<T: Reply>(&self, path: &str, key: &str, value: serde_json::Value) -> (r: Result<
        Call<T>,
        Error,
    >)
        ensures
            called(
                r,
                planned(
                    Method::Put,
                    self.base(),
                    path@,
                    Some(envelope(key@, value_json(value))),
                ),
            ),
    {
        let body = single(key, value);
        wrap(self.inner.put(path, print(&body)))
    }
}

/// The call for a request, where there is one.
fn wrap<T>(r: Result<Request, Error>) -> (c: Result<Call<T>, Error>)
    ensures
        match r {
            Ok(request) => c matches Ok(call) && call.request == request,
            Err(e) => c matches Err(f) && f == e,
        },
{
    match r {
        Ok(request) => Ok(Call { request, reply: PhantomData }),
        Err(e) => Err(e),
    }
}

} // verus!
