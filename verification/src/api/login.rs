//! How a login through GitHub is carried out: which work follows which event.
//! Whoever runs the machine does the work and hands back what came of it.
use vstd::prelude::*;
use crate::api::routes::{
    configured_or, github_login, github_oauth_callback, github_token, github_token_request, key_tier, login_answer, token_request,
};
use crate::db::{active_key, ApiKeyInfo};
use crate::http::{Next, NextV, Response, ResponseV};
use crate::json::{field_text, Json, JsonV};
use crate::text::{maybe, maybe_owned};

verus! {

/// A login to be carried out.
pub struct LoginPlan {
    pub client_id: String,
    pub client_secret: String,
    /// The code that GitHub sent the user back with.
    pub code: String,
    /// The address that the login came with.
    pub state: Option<String>,
    pub frontend_url: Option<String>,
}

/// How far a login has come.
pub enum LoginState {
    Exchanging,
    Asking,
    /// The key of this user is being looked up.
    Finding(String),
    /// A key for this user is being made.
    Creating(String),
}

/// How far a login has come, as mathematics.
pub enum LoginStateV {
    Exchanging,
    Asking,
    Finding(Seq<char>),
    Creating(Seq<char>),
}

impl View for LoginState {
    type V = LoginStateV;

    open spec fn view(&self) -> LoginStateV {
        match self {
            LoginState::Exchanging => LoginStateV::Exchanging,
            LoginState::Asking => LoginStateV::Asking,
            LoginState::Finding(s) => LoginStateV::Finding(s@),
            LoginState::Creating(s) => LoginStateV::Creating(s@),
        }
    }
}

/// What happened to a login.
pub enum LoginEvent {
    /// GitHub's reply to the exchange, or why there is none.
    Exchanged(Result<Json, String>),
    /// GitHub's reply on the user, or why there is none.
    Told(Result<Json, String>),
    /// The key that is stored under the name of the user.
    Found(Option<ApiKeyInfo>),
    /// The key that was made.
    Created(Option<String>),
}

/// What is to be done for a login.
pub enum LoginWork {
    /// Nothing yet.
    Wait,
    /// Exchange the code for a token, with this request.
    Exchange(Json),
    /// Ask whom this token belongs to.
    Ask(String),
    /// Look up the key under this name.
    Find(String),
    /// Make a key with this name and plan.
    Create(String, String),
}

/// What is to be done for a login, as mathematics.
pub enum LoginWorkV {
    Wait,
    Exchange(JsonV),
    Ask(Seq<char>),
    Find(Seq<char>),
    Create(Seq<char>, Seq<char>),
}

impl View for LoginWork {
    type V = LoginWorkV;

    open spec fn view(&self) -> LoginWorkV {
        match self {
            LoginWork::Wait => LoginWorkV::Wait,
            LoginWork::Exchange(j) => LoginWorkV::Exchange(j@),
            LoginWork::Ask(s) => LoginWorkV::Ask(s@),
            LoginWork::Find(s) => LoginWorkV::Find(s@),
            LoginWork::Create(s, t) => LoginWorkV::Create(s@, t@),
        }
    }
}

/// The string that a reply holds under `key`.
pub open spec fn reply_text(reply: Result<Json, String>, key: Seq<char>) -> Option<Seq<char>> {
    match reply {
        Ok(j) => field_text(j@, key),
        Err(_) => None,
    }
}

/// The answer to a login.
pub open spec fn login_end(plan: LoginPlan, login: Option<(Seq<char>, Seq<char>)>) -> ResponseV {
    login_answer(
        configured_or(maybe_owned(plan.frontend_url), "http://localhost:3000"@),
        maybe_owned(plan.state),
        login,
    )
}

/// What follows an event: the code is exchanged for a token, GitHub tells whom
/// the token belongs to, and that user gets the active key of that name, or a new
/// one of the least plan.
pub open spec fn login_step(plan: LoginPlan, s: LoginStateV, e: LoginEvent) -> NextV<LoginStateV, LoginWorkV> {
    match (s, e) {
        (LoginStateV::Exchanging, LoginEvent::Exchanged(reply)) => match reply_text(reply, "access_token"@) {
            Some(token) => NextV::Do(LoginStateV::Asking, LoginWorkV::Ask(token)),
            None => NextV::Answer(login_end(plan, None)),
        },
        (LoginStateV::Asking, LoginEvent::Told(reply)) => match reply_text(reply, "login"@) {
            Some(name) => NextV::Do(LoginStateV::Finding(name), LoginWorkV::Find(name)),
            None => NextV::Answer(login_end(plan, None)),
        },
        (LoginStateV::Finding(name), LoginEvent::Found(found)) => match found {
            Some(k) => if k.is_active {
                NextV::Answer(login_end(plan, Some((name, k.key@))))
            } else {
                NextV::Do(LoginStateV::Creating(name), LoginWorkV::Create(name, "free"@))
            },
            None => NextV::Do(LoginStateV::Creating(name), LoginWorkV::Create(name, "free"@)),
        },
        (LoginStateV::Creating(name), LoginEvent::Created(made)) => NextV::Answer(
            login_end(
                plan,
                match made {
                    Some(key) => Some((name, key@)),
                    None => None,
                },
            ),
        ),
        _ => NextV::Do(s, LoginWorkV::Wait),
    }
}

/// The first state and work of a login.
pub fn login_begin(plan: &LoginPlan) -> (r: (LoginState, LoginWork))
    ensures
        r.0@ is Exchanging,
        r.1@ == LoginWorkV::Exchange(token_request(plan.client_id@, plan.client_secret@, plan.code@)),
{
    let request: Json = github_token_request(plan.client_id.as_str(), plan.client_secret.as_str(), plan.code.as_str());
    (LoginState::Exchanging, LoginWork::Exchange(request))
}

/// A text by reference, where there is one.
fn as_text(s: &Option<String>) -> (r: Option<&str>)
    ensures
        maybe(r) == maybe_owned(*s),
{
    match s {
        Some(t) => Some(t.as_str()),
        None => None,
    }
}

/// The answer to a login.
fn end_of_login(plan: &LoginPlan, login: Option<(String, String)>) -> (r: Response)
    ensures
        r@ == login_end(
            *plan,
            match login {
                Some((name, key)) => Some((name@, key@)),
                None => None,
            },
        ),
{
    github_oauth_callback(as_text(&plan.frontend_url), as_text(&plan.state), login)
}

/// What follows an event.
pub fn login_next(plan: &LoginPlan, s: LoginState, e: LoginEvent) -> (r: Next<LoginState, LoginWork>)
    ensures
        r@ == login_step(*plan, s@, e),
{
    match (s, e) {
        (LoginState::Exchanging, LoginEvent::Exchanged(reply)) => {
            let token: Option<String> = match &reply {
                Ok(j) => github_token(j),
                Err(_) => None,
            };
            match token {
                Some(token) => Next::Do(LoginState::Asking, LoginWork::Ask(token)),
                None => Next::Answer(end_of_login(plan, None)),
            }
        },
        (LoginState::Asking, LoginEvent::Told(reply)) => {
            let login: Option<String> = match &reply {
                Ok(j) => github_login(j),
                Err(_) => None,
            };
            match login {
                Some(name) => {
                    let copy: String = name.clone();
                    Next::Do(LoginState::Finding(name), LoginWork::Find(copy))
                },
                None => Next::Answer(end_of_login(plan, None)),
            }
        },
        (LoginState::Finding(name), LoginEvent::Found(found)) => match active_key(found) {
            Some(k) => Next::Answer(end_of_login(plan, Some((name, k.key)))),
            None => {
                let copy: String = name.clone();
                Next::Do(LoginState::Creating(name), LoginWork::Create(copy, key_tier(None)))
            },
        },
        (LoginState::Creating(name), LoginEvent::Created(made)) => match made {
            Some(key) => Next::Answer(end_of_login(plan, Some((name, key)))),
            None => Next::Answer(end_of_login(plan, None)),
        },
        (s, _) => Next::Do(s, LoginWork::Wait),
    }
}

/// A login after some events: its state until it is answered, and the answer.
pub open spec fn login_trace(plan: LoginPlan, events: Seq<LoginEvent>) -> (Option<LoginStateV>, Option<ResponseV>)
    decreases events.len(),
{
    if events.len() == 0 {
        (Some(LoginStateV::Exchanging), None)
    } else {
        let (s, answer) = login_trace(plan, events.drop_last());
        match s {
            None => (None, answer),
            Some(s) => match login_step(plan, s, events.last()) {
                NextV::Do(next, _) => (Some(next), None),
                NextV::Answer(r) => (None, Some(r)),
            },
        }
    }
}

/// Whether GitHub told that the user is `name`.
pub open spec fn told(events: Seq<LoginEvent>, name: Seq<char>) -> bool {
    exists|i: int| 0 <= i < events.len() && (#[trigger] events[i] matches LoginEvent::Told(reply)) && reply_text(
        events[i]->Told_0,
        "login"@,
    ) == Some(name)
}

/// What GitHub told stays told.
proof fn lemma_told_stays(events: Seq<LoginEvent>, name: Seq<char>)
    requires
        events.len() > 0,
        told(events.drop_last(), name),
    ensures
        told(events, name),
{
    let earlier = events.drop_last();
    let i = choose|i: int| 0 <= i < earlier.len() && (#[trigger] earlier[i] matches LoginEvent::Told(reply)) && reply_text(
        earlier[i]->Told_0,
        "login"@,
    ) == Some(name);
    assert(events[i] == earlier[i]);
}

/// Law: a user gets a key only where GitHub told who the user is, and then the
/// key of that name: every answer to a login is the error page, or hands out a
/// key for a name that GitHub told.
pub proof fn law_login_needs_github(plan: LoginPlan, events: Seq<LoginEvent>)
    ensures
        match login_trace(plan, events) {
            (Some(LoginStateV::Finding(name)), _) => told(events, name),
            (Some(LoginStateV::Creating(name)), _) => told(events, name),
            (Some(_), _) => true,
            (None, answer) => answer == Some(login_end(plan, None)) || exists|name: Seq<char>, key: Seq<char>|
                told(events, name) && answer == Some(#[trigger] login_end(plan, Some((name, key)))),
        },
    decreases events.len(),
{
    if events.len() > 0 {
        let earlier = events.drop_last();
        law_login_needs_github(plan, earlier);
        let e = events.last();
        assert(events[events.len() - 1] == e);
        match login_trace(plan, earlier) {
            (Some(LoginStateV::Finding(name)), _) => {
                lemma_told_stays(events, name);
            },
            (Some(LoginStateV::Creating(name)), _) => {
                lemma_told_stays(events, name);
            },
            (Some(_), _) => {},
            (None, answer) => {
                if answer != Some(login_end(plan, None)) {
                    let (name, key) = choose|name: Seq<char>, key: Seq<char>|
                        told(earlier, name) && answer == Some(#[trigger] login_end(plan, Some((name, key))));
                    lemma_told_stays(events, name);
                }
            },
        }
    }
}

} // verus!
