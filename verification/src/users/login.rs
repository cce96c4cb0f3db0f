//! The login: an e-mail address and a password are exchanged for a token
//! that identifies the user for one day.

use vstd::prelude::*;
use crate::credentials::{password_matches, verify_password};
use crate::flow::{answer_locally, answers_locally, respond, Effect, EffectView, Event, EventView};
use crate::models::{Claims, ClaimsView, LoginRequest, UserView};
use crate::reply::{refused, Body, BodyView, Reply, ReplyView, Status};
use crate::text::trimmed;
use crate::token::{carried_claims, expiry, expiry_after, issue_token, signed_token};

verus! {

/// Where a login stands.
#[derive(Debug, Clone, PartialEq, Eq)]
pub enum Login {
    /// The user with the e-mail address was asked for.
    AwaitingUser { password: String, secret: String },
    /// The password matches; the clock was asked for.
    AwaitingClock { id: i64, email: String, firstname: String, lastname: String, secret: String },
    /// The request was answered.
    Finished,
}

/// The state of a login, as contracts see it.
pub ghost enum LoginView {
    AwaitingUser { password: Seq<char>, secret: Seq<char> },
    AwaitingClock { id: i64, email: Seq<char>, firstname: Seq<char>, lastname: Seq<char>, secret: Seq<char> },
    Finished,
}

impl View for Login {
    type V = LoginView;

    open spec fn view(&self) -> LoginView {
        match *self {
            Login::AwaitingUser { password, secret } => LoginView::AwaitingUser {
                password: password@,
                secret: secret@,
            },
            Login::AwaitingClock { id, email, firstname, lastname, secret } => LoginView::AwaitingClock {
                id,
                email: email@,
                firstname: firstname@,
                lastname: lastname@,
                secret: secret@,
            },
            Login::Finished => LoginView::Finished,
        }
    }
}

/// A step of the pipeline, as contracts see it.
pub open spec fn step_view(step: Option<(Login, Effect)>) -> Option<(LoginView, EffectView)> {
    match step {
        Some((state, effect)) => Some((state@, effect@)),
        None => None,
    }
}

/// The step that answers the request and ends the pipeline.
pub open spec fn finish(reply: ReplyView) -> (LoginView, EffectView) {
    (LoginView::Finished, respond(reply))
}

/// The answer to a login that succeeded.
pub open spec fn logged_in(token: Seq<char>) -> ReplyView {
    ReplyView { status: Status::Success, body: BodyView::Token { message: "Login successful"@, token } }
}

/// The answer to a login with a password that does not match.
pub open spec fn incorrect_password() -> ReplyView {
    refused(Status::BadRequest, "Incorrect password"@)
}

/// How a login begins: both fields are trimmed, and the user with the
/// e-mail address is asked for.
pub open spec fn start_model(email: Seq<char>, password: Seq<char>, secret: Seq<char>) -> (LoginView, EffectView) {
    (
        LoginView::AwaitingUser { password: trimmed(password), secret },
        EffectView::FindUserByEmail { email: trimmed(email) },
    )
}

/// What follows once the password is held against the user that was found.
pub open spec fn after_lookup(user: UserView, password: Seq<char>, secret: Seq<char>) -> (LoginView, EffectView) {
    if !password_matches(password, user.password) {
        finish(incorrect_password())
    } else {
        (
            LoginView::AwaitingClock {
                id: user.id,
                email: user.email,
                firstname: user.firstname,
                lastname: user.lastname,
                secret,
            },
            EffectView::ReadClock,
        )
    }
}

/// The step that `event` causes in `state`; `None` where `event` does not
/// answer what `state` waits for, where the expiry cannot be told, and
/// where the signer fails.
pub open spec fn login_user_model(state: LoginView, event: EventView) -> Option<(LoginView, EffectView)> {
    match state {
        LoginView::AwaitingUser { password, secret } => match event {
            EventView::User { user: None } => Some(finish(refused(Status::BadRequest, "User not found"@))),
            EventView::User { user: Some(user) } => Some(after_lookup(user, password, secret)),
            _ => None,
        },
        LoginView::AwaitingClock { id, email, firstname, lastname, secret } => match event {
            EventView::Clock { now } => match expiry(now) {
                None => None,
                Some(exp) => match signed_token(ClaimsView { id, email, firstname, lastname, exp }, secret) {
                    None => None,
                    Some(token) => Some(finish(logged_in(token))),
                },
            },
            _ => None,
        },
        LoginView::Finished => None,
    }
}

/// What the pipeline hands to its driver for `event` in `state`: the step
/// of [`login_user_model`], gone one step further where that step asks for
/// something that the library answers itself.
pub open spec fn login_user_outcome(state: LoginView, event: EventView, out: Option<(LoginView, EffectView)>) -> bool {
    match login_user_model(state, event) {
        None => out is None,
        Some((next, effect)) => if effect.is_local() {
            exists|answer: EventView| #[trigger]
                answers_locally(effect, answer) && out == login_user_model(next, answer)
        } else {
            out == Some((next, effect))
        },
    }
}

/// The token of an answer, where the answer hands out one.
pub open spec fn token_of(out: Option<(LoginView, EffectView)>) -> Option<Seq<char>> {
    match out {
        Some((_, EffectView::Respond { reply })) => match reply.body {
            BodyView::Token { message, token } => Some(token),
            _ => None,
        },
        _ => None,
    }
}

/// Whether the token that a step hands out once the clock was read
/// carries the identity that the login found, with the expiry one day
/// after the time that was read.
pub open spec fn issued_for(state: LoginView, event: EventView, out: Option<(LoginView, EffectView)>) -> bool {
    match (state, event, token_of(out)) {
        (
            LoginView::AwaitingClock { id, email, firstname, lastname, secret },
            EventView::Clock { now },
            Some(token),
        ) => expiry(now) is Some && carried_claims(token, secret) == Some(
            ClaimsView { id, email, firstname, lastname, exp: expiry(now)->0 },
        ),
        _ => true,
    }
}

/// Whether the token that a login hands out for the user that was found
/// carries that user's identity.
pub open spec fn issued_to(state: LoginView, event: EventView, out: Option<(LoginView, EffectView)>) -> bool {
    match (state, event, token_of(out)) {
        (LoginView::AwaitingUser { password, secret }, EventView::User { user: Some(user) }, Some(token)) => {
            match carried_claims(token, secret) {
                Some(claims) => claims.id == user.id && claims.email == user.email && claims.firstname
                    == user.firstname && claims.lastname == user.lastname,
                None => false,
            }
        },
        _ => true,
    }
}

/// Ends the pipeline with `reply`.
fn finished(reply: Reply) -> (step: (Login, Effect))
    ensures
        (step.0@, step.1@) == finish(reply@),
{
    (Login::Finished, Effect::Respond { reply })
}

impl Login {
    /// Begins a login with the request's fields; tokens are signed under `secret`.
    pub fn start(request: LoginRequest, secret: String) -> (step: (Login, Effect))
        ensures
            (step.0@, step.1@) == start_model(request.email@, request.password@, secret@),
    {
        let email = request.email.as_str().trim().to_owned();
        let password = request.password.as_str().trim().to_owned();
        (Login::AwaitingUser { password, secret }, Effect::FindUserByEmail { email })
    }
}

/// Takes a login one step further, without answering anything itself. The
/// result is `None` where `event` is no answer to what `state` waits for.
/// A token that is handed out carries the identity of the user, so that
/// a reading of it under the same secret gives that identity.
pub fn login_user_step(state: Login, event: Event) -> (step: Option<(Login, Effect)>)
    ensures
        step_view(step) == login_user_model(state@, event@),
        issued_for(state@, event@, step_view(step)),
{
    match state {
        Login::AwaitingUser { password, secret } => match event {
            Event::User { user: None } => Some(finished(Reply::refuse(Status::BadRequest, "User not found"))),
            Event::User { user: Some(user) } => {
                if !verify_password(password.as_str(), user.password.as_str()) {
                    Some(finished(Reply::refuse(Status::BadRequest, "Incorrect password")))
                } else {
                    Some(
                        (
                            Login::AwaitingClock {
                                id: user.id,
                                email: user.email,
                                firstname: user.firstname,
                                lastname: user.lastname,
                                secret,
                            },
                            Effect::ReadClock,
                        ),
                    )
                }
            },
            _ => None,
        },
        Login::AwaitingClock { id, email, firstname, lastname, secret } => match event {
            Event::Clock { now } => match expiry_after(now) {
                None => None,
                Some(exp) => {
                    let claims = Claims { id, email, firstname, lastname, exp };
                    match issue_token(&claims, secret.as_str()) {
                        None => None,
                        Some(token) => {
                            let ghost issued = token@;
                            let step = Some(
                                finished(
                                    Reply {
                                        status: Status::Success,
                                        body: Body::Token { message: "Login successful".to_owned(), token },
                                    },
                                ),
                            );
                            assert(token_of(step_view(step)) == Some(issued));
                            assert(carried_claims(issued, secret@) == Some(claims@));
                            step
                        },
                    }
                },
            },
            _ => None,
        },
        Login::Finished => None,
    }
}

/// Takes a login one step further: from where it stands and the answer to
/// what it last asked for, to where it stands next and what it asks of its
/// driver now. The clock is read here, and the token is made. The result
/// is `None` where `event` is no answer to what `state` waits for, and
/// where no token could be made. The token that a login hands out carries
/// the identity of the user that was found.
pub fn login_user(state: Login, event: Event) -> (step: Option<(Login, Effect)>)
    ensures
        login_user_outcome(state@, event@, step_view(step)),
        issued_to(state@, event@, step_view(step)),
{
    match login_user_step(state, event) {
        None => None,
        Some((next, effect)) => match answer_locally(effect) {
            Err(effect) => Some((next, effect)),
            Ok(answer) => {
                let ghost asked = login_user_model(state@, event@)->0;
                let step = login_user_step(next, answer);
                assert(answers_locally(asked.1, answer@) && step_view(step) == login_user_model(asked.0, answer@));
                assert(issued_for(asked.0, answer@, step_view(step)));
                step
            },
        },
    }
}

} // verus!
