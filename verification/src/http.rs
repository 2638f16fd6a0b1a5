//! What a request is answered with.
use vstd::prelude::*;
use crate::json::{Fields, Json, JsonV};

verus! {

pub const OK: u16 = 200;

pub const CREATED: u16 = 201;

pub const ACCEPTED: u16 = 202;

pub const NO_CONTENT: u16 = 204;

pub const BAD_REQUEST: u16 = 400;

pub const UNAUTHORIZED: u16 = 401;

pub const FORBIDDEN: u16 = 403;

pub const NOT_FOUND: u16 = 404;

pub const LOCKED: u16 = 423;

pub const TOO_MANY_REQUESTS: u16 = 429;

pub const INTERNAL_SERVER_ERROR: u16 = 500;

pub const SERVICE_UNAVAILABLE: u16 = 503;

pub const INSUFFICIENT_STORAGE: u16 = 507;

/// An answer: a status code and, where there is one, a body.
pub enum Response {
    Json(u16, Json),
    Text(u16, String),
    Status(u16),
    /// A temporary redirect.
    Redirect(String),
}

/// An answer as mathematics.
pub enum ResponseV {
    Json(u16, JsonV),
    Text(u16, Seq<char>),
    Status(u16),
    Redirect(Seq<char>),
}

impl View for Response {
    type V = ResponseV;

    open spec fn view(&self) -> ResponseV {
        match self {
            Response::Json(code, j) => ResponseV::Json(*code, j@),
            Response::Text(code, s) => ResponseV::Text(*code, s@),
            Response::Status(code) => ResponseV::Status(*code),
            Response::Redirect(s) => ResponseV::Redirect(s@),
        }
    }
}

/// What follows what happened: work, and the state that awaits its outcome, or
/// the answer.
pub enum Next<S, W> {
    Do(S, W),
    Answer(Response),
}

/// What follows what happened, as mathematics.
pub enum NextV<S, W> {
    Do(S, W),
    Answer(ResponseV),
}

impl<S: View, W: View> View for Next<S, W> {
    type V = NextV<S::V, W::V>;

    open spec fn view(&self) -> NextV<S::V, W::V> {
        match self {
            Next::Do(s, w) => NextV::Do(s@, w@),
            Next::Answer(r) => NextV::Answer(r@),
        }
    }
}

/// An object with the one field `error`.
pub open spec fn error_object(message: Seq<char>) -> JsonV {
    JsonV::Obj(map!["error"@ => JsonV::Str(message)])
}

/// An object with the one field `error`.
pub fn error_json(message: &str) -> (r: Json)
    ensures
        r@ == error_object(message@),
{
    let mut f: Fields = Fields::new();
    f.put_text("error", message);
    f.done()
}

} // verus!
