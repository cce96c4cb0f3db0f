//! The change of a password: the caller names the old password and a new
//! one. The old one must be the stored one, the new one must be another
//! and pass the password rule; then the hash of the new one is written.

use vstd::prelude::*;
use vstd::string::StringExecFns;
use crate::credentials::{password_matches, verify_password};
use crate::flow::{answer_locally, answers_locally, respond, Effect, EffectView, Event, EventView};
use crate::models::{ChangePasswordForm, UserView};
use crate::reply::{failed, refused, succeeded, Reply, ReplyView, Status};
use crate::text::trimmed;
use crate::users::login::{after_lookup, incorrect_password};
use crate::validation::{password_verdict, Validator};

verus! {

/// Where a change of a password stands.
#[derive(Debug, Clone, PartialEq, Eq)]
pub enum PasswordChange {
    /// The stored hash was asked for.
    AwaitingHash { id: i64, old_password: String, new_password: String },
    /// The new password was handed over to be hashed.
    Hashing { id: i64 },
    /// The new hash was handed over to be written.
    Persisting,
    /// The request was answered.
    Finished,
}

/// The state of a change of a password, as contracts see it.
pub ghost enum PasswordChangeView {
    AwaitingHash { id: i64, old_password: Seq<char>, new_password: Seq<char> },
    Hashing { id: i64 },
    Persisting,
    Finished,
}

impl View for PasswordChange {
    type V = PasswordChangeView;

    open spec fn view(&self) -> PasswordChangeView {
        match *self {
            PasswordChange::AwaitingHash { id, old_password, new_password } => PasswordChangeView::AwaitingHash {
                id,
                old_password: old_password@,
                new_password: new_password@,
            },
            PasswordChange::Hashing { id } => PasswordChangeView::Hashing { id },
            PasswordChange::Persisting => PasswordChangeView::Persisting,
            PasswordChange::Finished => PasswordChangeView::Finished,
        }
    }
}

/// A step of the pipeline, as contracts see it.
pub open spec fn step_view(step: Option<(PasswordChange, Effect)>) -> Option<(PasswordChangeView, EffectView)> {
    match step {
        Some((state, effect)) => Some((state@, effect@)),
        None => None,
    }
}

/// The step that answers the request and ends the pipeline.
pub open spec fn finish(reply: ReplyView) -> (PasswordChangeView, EffectView) {
    (PasswordChangeView::Finished, respond(reply))
}

/// How a change begins: both passwords must be there and the new one must
/// pass the password rule; then the stored hash is asked for.
pub open spec fn start_model(id: i64, old_password: Seq<char>, new_password: Seq<char>) -> (
    PasswordChangeView,
    EffectView,
) {
    if old_password.len() == 0 || new_password.len() == 0 {
        finish(refused(Status::BadRequest, "All fields required"@))
    } else if password_verdict(new_password) is Err {
        finish(refused(Status::BadRequest, password_verdict(new_password)->Err_0))
    } else {
        (
            PasswordChangeView::AwaitingHash { id, old_password, new_password },
            EffectView::FindPasswordHash { id },
        )
    }
}

/// What follows the two checks against the stored hash.
pub open spec fn after_hash(id: i64, old_password: Seq<char>, new_password: Seq<char>, stored: Seq<char>) -> (
    PasswordChangeView,
    EffectView,
) {
    if !password_matches(old_password, stored) {
        finish(refused(Status::BadRequest, "Old password is incorrect"@))
    } else if password_matches(new_password, stored) {
        finish(refused(Status::BadRequest, "New password cannot be same as old password"@))
    } else {
        (PasswordChangeView::Hashing { id }, EffectView::HashPassword { password: new_password })
    }
}

/// The step that `event` causes in `state`; `None` where `event` does not
/// answer what `state` waits for.
pub open spec fn change_password_model(state: PasswordChangeView, event: EventView) -> Option<
    (PasswordChangeView, EffectView),
> {
    match state {
        PasswordChangeView::AwaitingHash { id, old_password, new_password } => match event {
            EventView::PasswordHash { hash: None } => Some(finish(refused(Status::BadRequest, "User not found"@))),
            EventView::StoreError { error } => Some(finish(refused(Status::InternalServerError, error))),
            EventView::PasswordHash { hash: Some(stored) } => Some(
                after_hash(id, old_password, new_password, stored),
            ),
            _ => None,
        },
        PasswordChangeView::Hashing { id } => match event {
            EventView::HashFailed { error } => Some(
                finish(refused(Status::InternalServerError, "Hashing error: "@ + error)),
            ),
            EventView::PasswordHashed { hash } => Some(
                (PasswordChangeView::Persisting, EffectView::UpdatePassword { id, hash }),
            ),
            _ => None,
        },
        PasswordChangeView::Persisting => match event {
            EventView::Written { rows } => Some(
                finish(succeeded(Status::Success, "Password changed successfully"@)),
            ),
            EventView::StoreError { error } => Some(
                finish(failed(Status::InternalServerError, "Failed to update password"@, error)),
            ),
            _ => None,
        },
        PasswordChangeView::Finished => None,
    }
}

/// What the pipeline hands to its driver for `event` in `state`: the step
/// of [`change_password_model`], gone one step further where that step
/// asks for something that the library answers itself.
pub open spec fn change_password_outcome(
    state: PasswordChangeView,
    event: EventView,
    out: Option<(PasswordChangeView, EffectView)>,
) -> bool {
    match change_password_model(state, event) {
        None => out is None,
        Some((next, effect)) => if effect.is_local() {
            exists|answer: EventView| #[trigger]
                answers_locally(effect, answer) && out == change_password_model(next, answer)
        } else {
            out == Some((next, effect))
        },
    }
}

/// Ends the pipeline with `reply`.
fn finished(reply: Reply) -> (step: (PasswordChange, Effect))
    ensures
        (step.0@, step.1@) == finish(reply@),
{
    (PasswordChange::Finished, Effect::Respond { reply })
}

impl PasswordChange {
    /// Begins a change of the password of the user `id`.
    pub fn start(id: i64, form: ChangePasswordForm) -> (step: (PasswordChange, Effect))
        ensures
            (step.0@, step.1@) == start_model(id, form.old_password@, form.new_password@),
    {
        let ChangePasswordForm { old_password, new_password } = form;
        if old_password.as_str().is_empty() || new_password.as_str().is_empty() {
            return finished(Reply::refuse(Status::BadRequest, "All fields required"));
        }
        match Validator::validate_password(new_password.as_str()) {
            Err(refusal) => finished(Reply::refuse_with(Status::BadRequest, refusal)),
            Ok(_) => (
                PasswordChange::AwaitingHash { id, old_password, new_password },
                Effect::FindPasswordHash { id },
            ),
        }
    }
}

/// Takes a change of a password one step further, without answering
/// anything itself. The result is `None` where `event` is no answer to
/// what `state` waits for.
pub fn change_password_step(state: PasswordChange, event: Event) -> (step: Option<(PasswordChange, Effect)>)
    ensures
        step_view(step) == change_password_model(state@, event@),
{
    match state {
        PasswordChange::AwaitingHash { id, old_password, new_password } => match event {
            Event::PasswordHash { hash: None } => Some(finished(Reply::refuse(Status::BadRequest, "User not found"))),
            Event::StoreError { error } => Some(finished(Reply::refuse_with(Status::InternalServerError, error))),
            Event::PasswordHash { hash: Some(stored) } => {
                if !verify_password(old_password.as_str(), stored.as_str()) {
                    Some(finished(Reply::refuse(Status::BadRequest, "Old password is incorrect")))
                } else if verify_password(new_password.as_str(), stored.as_str()) {
                    Some(
                        finished(Reply::refuse(Status::BadRequest, "New password cannot be same as old password")),
                    )
                } else {
                    Some((PasswordChange::Hashing { id }, Effect::HashPassword { password: new_password }))
                }
            },
            _ => None,
        },
        PasswordChange::Hashing { id } => match event {
            Event::HashFailed { error } => {
                let mut message = "Hashing error: ".to_owned();
                message.append(error.as_str());
                Some(finished(Reply::refuse_with(Status::InternalServerError, message)))
            },
            Event::PasswordHashed { hash } => Some((PasswordChange::Persisting, Effect::UpdatePassword { id, hash })),
            _ => None,
        },
        PasswordChange::Persisting => match event {
            Event::Written { rows } => Some(
                finished(Reply::succeed(Status::Success, "Password changed successfully")),
            ),
            Event::StoreError { error } => Some(
                finished(Reply::fail(Status::InternalServerError, "Failed to update password", error)),
            ),
            _ => None,
        },
        PasswordChange::Finished => None,
    }
}

/// Takes a change of a password one step further: from where it stands and
/// the answer to what it last asked for, to where it stands next and what
/// it asks of its driver now. The new password is hashed here. The result
/// is `None` where `event` is no answer to what `state` waits for.
pub fn change_password(state: PasswordChange, event: Event) -> (step: Option<(PasswordChange, Effect)>)
    ensures
        change_password_outcome(state@, event@, step_view(step)),
{
    match change_password_step(state, event) {
        None => None,
        Some((next, effect)) => match answer_locally(effect) {
            Err(effect) => Some((next, effect)),
            Ok(answer) => {
                let ghost asked = change_password_model(state@, event@)->0;
                let step = change_password_step(next, answer);
                assert(answers_locally(asked.1, answer@) && step_view(step) == change_password_model(
                    asked.0,
                    answer@,
                ));
                step
            },
        },
    }
}

/// A password is changed only where the old password verifies against the
/// stored hash and the new password passes the password rule and does not
/// verify against it: exactly then the pipeline goes on to hash the new
/// password. The hash that is then written is one against which the new
/// password verifies.
pub proof fn change_requires_old_and_new(
    id: i64,
    old_password: Seq<char>,
    new_password: Seq<char>,
    stored: Seq<char>,
    hash: Seq<char>,
)
    ensures
        (start_model(id, old_password, new_password).0 is AwaitingHash && after_hash(
            id,
            old_password,
            new_password,
            stored,
        ).1 is HashPassword) <==> (old_password.len() > 0 && new_password.len() > 0 && password_verdict(
            new_password,
        ) is Ok && password_matches(old_password, stored) && !password_matches(new_password, stored)),
        after_hash(id, old_password, new_password, stored).1 is HashPassword ==> after_hash(
            id,
            old_password,
            new_password,
            stored,
        ) == (PasswordChangeView::Hashing { id }, EffectView::HashPassword { password: new_password }),
        answers_locally(
            EffectView::HashPassword { password: new_password },
            EventView::PasswordHashed { hash },
        ) ==> password_matches(new_password, hash) && change_password_model(
            PasswordChangeView::Hashing { id },
            EventView::PasswordHashed { hash },
        ) == Some((PasswordChangeView::Persisting, EffectView::UpdatePassword { id, hash })),
{
}

/// After a change, a login with the new password is not refused for its
/// password: for a user whose stored hash is one that was made of `new_password`,
/// a login that names a password which is `new_password` once trimmed goes
/// on to its token.
pub proof fn login_accepts_new_password(user: UserView, new_password: Seq<char>, typed: Seq<char>, secret: Seq<char>)
    requires
        password_matches(new_password, user.password),
        trimmed(typed) == new_password,
    ensures
        after_lookup(user, trimmed(typed), secret).1 is ReadClock,
        after_lookup(user, trimmed(typed), secret).1 != respond(incorrect_password()),
{
}

/// A login with a password that does not verify against the stored hash
/// is refused as a client error and hands out no token. Whether an old
/// password still verifies against the hash of a new one is not stated
/// here.
pub proof fn login_refuses_what_does_not_verify(user: UserView, typed: Seq<char>, secret: Seq<char>)
    requires
        !password_matches(trimmed(typed), user.password),
    ensures
        after_lookup(user, trimmed(typed), secret).1 == respond(incorrect_password()),
        incorrect_password().status.is_client_error(),
{
}

} // verus!
