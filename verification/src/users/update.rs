//! The update of a user: a form may replace the contact fields, the
//! password and the profile image of the user it names. The pipeline
//! resolves the user, reads the form over the stored values, checks the
//! resulting fields, makes sure that no other user has the e-mail address,
//! stores the new image and removes the old one, hashes the new password
//! where the form names one, and writes the row. A user whose form names no
//! password keeps the stored hash.

use vstd::prelude::*;
use crate::flow::{answer_locally, answers_locally, respond, Effect, EffectView, Event, EventView};
use crate::media::{upload_views, Directory, Upload, UploadView};
use crate::models::{optional_text, NewUser, NewUserView, UserView};
use crate::multipart::{field_entry, field_override, field_uploads, named_text, overridden, take_uploads,
    PartView};
use crate::reply::{refused, succeeded, Reply, ReplyView, Status};
use crate::validation::{email_verdict, firstname_verdict, lastname_verdict, password_verdict, phone_verdict,
    Validator};

verus! {

/// Where an update of a user stands.
#[derive(Debug, Clone, PartialEq, Eq)]
pub enum UserUpdate {
    /// The user was asked for.
    AwaitingUser { id: i64 },
    /// The user exists; the form's parts were asked for.
    AwaitingParts { id: i64, user: NewUser },
    /// It was asked whether another user has the e-mail address.
    /// `password` is the new password, where the form names one.
    AwaitingEmailCheck { id: i64, user: NewUser, upload: Option<Upload>, password: Option<String> },
    /// The new profile image was handed over to be stored.
    SavingImage { id: i64, user: NewUser, password: Option<String> },
    /// It was asked whether the old profile image is there.
    CheckingOldImage { id: i64, user: NewUser, saved: String, password: Option<String> },
    /// The removal of the old profile image was asked for.
    RemovingOldImage { id: i64, user: NewUser, saved: String, password: Option<String> },
    /// The new password was handed over to be hashed.
    Hashing { id: i64, user: NewUser },
    /// The row was handed over to be written.
    Persisting,
    /// The request was answered.
    Finished,
}

/// The state of an update of a user, as contracts see it.
pub ghost enum UserUpdateView {
    AwaitingUser { id: i64 },
    AwaitingParts { id: i64, user: NewUserView },
    AwaitingEmailCheck { id: i64, user: NewUserView, upload: Option<UploadView>, password: Option<Seq<char>> },
    SavingImage { id: i64, user: NewUserView, password: Option<Seq<char>> },
    CheckingOldImage { id: i64, user: NewUserView, saved: Seq<char>, password: Option<Seq<char>> },
    RemovingOldImage { id: i64, user: NewUserView, saved: Seq<char>, password: Option<Seq<char>> },
    Hashing { id: i64, user: NewUserView },
    Persisting,
    Finished,
}

impl View for UserUpdate {
    type V = UserUpdateView;

    open spec fn view(&self) -> UserUpdateView {
        match *self {
            UserUpdate::AwaitingUser { id } => UserUpdateView::AwaitingUser { id },
            UserUpdate::AwaitingParts { id, user } => UserUpdateView::AwaitingParts { id, user: user@ },
            UserUpdate::AwaitingEmailCheck { id, user, upload, password } => UserUpdateView::AwaitingEmailCheck {
                id,
                user: user@,
                upload: match upload {
                    Some(image) => Some(image@),
                    None => None,
                },
                password: optional_text(password),
            },
            UserUpdate::SavingImage { id, user, password } => UserUpdateView::SavingImage {
                id,
                user: user@,
                password: optional_text(password),
            },
            UserUpdate::CheckingOldImage { id, user, saved, password } => UserUpdateView::CheckingOldImage {
                id,
                user: user@,
                saved: saved@,
                password: optional_text(password),
            },
            UserUpdate::RemovingOldImage { id, user, saved, password } => UserUpdateView::RemovingOldImage {
                id,
                user: user@,
                saved: saved@,
                password: optional_text(password),
            },
            UserUpdate::Hashing { id, user } => UserUpdateView::Hashing { id, user: user@ },
            UserUpdate::Persisting => UserUpdateView::Persisting,
            UserUpdate::Finished => UserUpdateView::Finished,
        }
    }
}

/// A step of the pipeline, as contracts see it.
pub open spec fn step_view(step: Option<(UserUpdate, Effect)>) -> Option<(UserUpdateView, EffectView)> {
    match step {
        Some((state, effect)) => Some((state@, effect@)),
        None => None,
    }
}

/// The step that answers the request and ends the pipeline.
pub open spec fn finish(reply: ReplyView) -> (UserUpdateView, EffectView) {
    (UserUpdateView::Finished, respond(reply))
}

/// The fields of a stored user that an update may replace.
pub open spec fn stored_fields(user: UserView) -> NewUserView {
    NewUserView {
        profile: user.profile,
        email: user.email,
        firstname: user.firstname,
        lastname: user.lastname,
        ph: user.ph,
        password: user.password,
    }
}

/// The stored fields with what the form puts in the place of the contact
/// fields. The profile image and the password hash are as stored.
pub open spec fn merged(user: NewUserView, parts: Seq<PartView>) -> NewUserView {
    NewUserView {
        profile: user.profile,
        email: overridden(parts, "email"@, user.email),
        firstname: overridden(parts, "firstname"@, user.firstname),
        lastname: overridden(parts, "lastname"@, user.lastname),
        ph: overridden(parts, "ph"@, user.ph),
        password: user.password,
    }
}

/// The new password, where the form names one.
pub open spec fn new_password(parts: Seq<PartView>) -> Option<Seq<char>> {
    named_text(parts, "password"@)
}

/// The first refusal among the contact rules and, where the form names a
/// new password, the password rule, in this order.
pub open spec fn form_verdict(user: NewUserView, password: Option<Seq<char>>) -> Result<(), Seq<char>> {
    if contact_verdict(user) is Err {
        contact_verdict(user)
    } else {
        match password {
            Some(typed) => password_verdict(typed),
            None => Ok(()),
        }
    }
}

/// The first refusal among the rules for first name, last name, phone and
/// e-mail address, in this order.
pub open spec fn contact_verdict(user: NewUserView) -> Result<(), Seq<char>> {
    if firstname_verdict(user.firstname) is Err {
        firstname_verdict(user.firstname)
    } else if lastname_verdict(user.lastname) is Err {
        lastname_verdict(user.lastname)
    } else if phone_verdict(user.ph) is Err {
        phone_verdict(user.ph)
    } else {
        email_verdict(user.email)
    }
}

/// The last of `uploads`, where there is one.
pub open spec fn last_upload(uploads: Seq<UploadView>) -> Option<UploadView> {
    if uploads.len() > 0 {
        Some(uploads.last())
    } else {
        None
    }
}

/// How an update of the user `id` begins: the user is asked for.
pub open spec fn start_model(id: i64) -> (UserUpdateView, EffectView) {
    (UserUpdateView::AwaitingUser { id }, EffectView::FindUser { id })
}

/// The write of the row.
pub open spec fn persist(id: i64, user: NewUserView) -> (UserUpdateView, EffectView) {
    (UserUpdateView::Persisting, EffectView::UpdateUser { id, user })
}

/// What precedes the write: a new password is hashed. Where the form
/// names none, the row is written with the stored hash.
pub open spec fn before_persist(id: i64, user: NewUserView, password: Option<Seq<char>>) -> (
    UserUpdateView,
    EffectView,
) {
    match password {
        Some(typed) => (UserUpdateView::Hashing { id, user }, EffectView::HashPassword { password: typed }),
        None => persist(id, user),
    }
}

/// The step that `event` causes in `state`; `None` where `event` does not
/// answer what `state` waits for.
pub open spec fn update_user_model(state: UserUpdateView, event: EventView) -> Option<
    (UserUpdateView, EffectView),
> {
    match state {
        UserUpdateView::AwaitingUser { id } => match event {
            EventView::User { user: None } => Some(finish(refused(Status::BadRequest, "User ID not found"@))),
            EventView::User { user: Some(user) } => Some(
                (UserUpdateView::AwaitingParts { id, user: stored_fields(user) }, EffectView::ReadParts),
            ),
            _ => None,
        },
        UserUpdateView::AwaitingParts { id, user } => match event {
            EventView::Parts { parts } => match field_uploads(parts, "profile"@) {
                Err(refusal) => Some(finish(refused(Status::BadRequest, refusal))),
                Ok(uploads) => match form_verdict(merged(user, parts), new_password(parts)) {
                    Err(refusal) => Some(finish(refused(Status::BadRequest, refusal))),
                    Ok(_) => Some(
                        (
                            UserUpdateView::AwaitingEmailCheck {
                                id,
                                user: merged(user, parts),
                                upload: last_upload(uploads),
                                password: new_password(parts),
                            },
                            EffectView::FindOtherUserByEmail { email: merged(user, parts).email, id },
                        ),
                    ),
                },
            },
            _ => None,
        },
        UserUpdateView::AwaitingEmailCheck { id, user, upload, password } => match event {
            EventView::User { user: Some(_) } => Some(
                finish(refused(Status::BadRequest, "Email already in use by another user"@)),
            ),
            EventView::User { user: None } => match upload {
                Some(image) => Some(
                    (
                        UserUpdateView::SavingImage { id, user, password },
                        EffectView::SaveProfileImage { upload: image },
                    ),
                ),
                None => Some(before_persist(id, user, password)),
            },
            _ => None,
        },
        UserUpdateView::SavingImage { id, user, password } => match event {
            EventView::SaveFailed { error } => Some(finish(refused(Status::InternalServerError, error))),
            EventView::ProfileImageSaved { name } => Some(
                (
                    UserUpdateView::CheckingOldImage { id, user, saved: name, password },
                    EffectView::FileExists { directory: Directory::Profiles, name: user.profile },
                ),
            ),
            _ => None,
        },
        UserUpdateView::CheckingOldImage { id, user, saved, password } => match event {
            EventView::Exists { exists } => if exists {
                Some(
                    (
                        UserUpdateView::RemovingOldImage { id, user, saved, password },
                        EffectView::RemoveFile { directory: Directory::Profiles, name: user.profile },
                    ),
                )
            } else {
                Some(before_persist(id, NewUserView { profile: saved, ..user }, password))
            },
            _ => None,
        },
        UserUpdateView::RemovingOldImage { id, user, saved, password } => match event {
            EventView::Removed { removed } => Some(
                before_persist(id, NewUserView { profile: saved, ..user }, password),
            ),
            _ => None,
        },
        UserUpdateView::Hashing { id, user } => match event {
            EventView::PasswordHashed { hash } => Some(persist(id, NewUserView { password: hash, ..user })),
            _ => None,
        },
        UserUpdateView::Persisting => match event {
            EventView::Written { rows } => if rows == 0 {
                Some(finish(refused(Status::NotFound, "User not found"@)))
            } else {
                Some(finish(succeeded(Status::Success, "User updated successfully"@)))
            },
            _ => None,
        },
        UserUpdateView::Finished => None,
    }
}

/// What the pipeline hands to its driver for `event` in `state`: the step
/// of [`update_user_model`], gone one step further where that step asks
/// for something that the library answers itself.
pub open spec fn update_user_outcome(
    state: UserUpdateView,
    event: EventView,
    out: Option<(UserUpdateView, EffectView)>,
) -> bool {
    match update_user_model(state, event) {
        None => out is None,
        Some((next, effect)) => if effect.is_local() {
            exists|answer: EventView| #[trigger]
                answers_locally(effect, answer) && out == update_user_model(next, answer)
        } else {
            out == Some((next, effect))
        },
    }
}

/// Ends the pipeline with `reply`.
fn finished(reply: Reply) -> (step: (UserUpdate, Effect))
    ensures
        (step.0@, step.1@) == finish(reply@),
{
    (UserUpdate::Finished, Effect::Respond { reply })
}

/// Applies the contact rules in their order.
fn check_contact(user: &NewUser) -> (r: Result<(), String>)
    ensures
        crate::validation::verdict(r) == contact_verdict(user@),
{
    match Validator::validate_firstname(user.firstname.as_str()) {
        Err(refusal) => {
            return Err(refusal);
        },
        Ok(_) => {},
    }
    match Validator::validate_lastname(user.lastname.as_str()) {
        Err(refusal) => {
            return Err(refusal);
        },
        Ok(_) => {},
    }
    match Validator::validate_phone(user.ph.as_str()) {
        Err(refusal) => {
            return Err(refusal);
        },
        Ok(_) => {},
    }
    Validator::validate_email(user.email.as_str())
}

/// Applies the rules of the form in their order.
fn check_form(user: &NewUser, password: &Option<String>) -> (r: Result<(), String>)
    ensures
        crate::validation::verdict(r) == form_verdict(user@, optional_text(*password)),
{
    match check_contact(user) {
        Err(refusal) => {
            return Err(refusal);
        },
        Ok(_) => {},
    }
    match password {
        Some(typed) => Validator::validate_password(typed.as_str()),
        None => Ok(()),
    }
}

/// Hashes the new password, where there is one; otherwise writes.
fn prepare_write(id: i64, user: NewUser, password: Option<String>) -> (step: (UserUpdate, Effect))
    ensures
        (step.0@, step.1@) == before_persist(id, user@, optional_text(password)),
{
    match password {
        Some(typed) => (UserUpdate::Hashing { id, user }, Effect::HashPassword { password: typed }),
        None => (UserUpdate::Persisting, Effect::UpdateUser { id, user }),
    }
}

impl UserUpdate {
    /// Begins an update of the user `id`.
    pub fn start(id: i64) -> (step: (UserUpdate, Effect))
        ensures
            (step.0@, step.1@) == start_model(id),
    {
        (UserUpdate::AwaitingUser { id }, Effect::FindUser { id })
    }
}

/// Takes an update of a user one step further, without answering anything
/// itself. The result is `None` where `event` is no answer to what `state`
/// waits for.
pub fn update_user_step(state: UserUpdate, event: Event) -> (step: Option<(UserUpdate, Effect)>)
    ensures
        step_view(step) == update_user_model(state@, event@),
{
    match state {
        UserUpdate::AwaitingUser { id } => match event {
            Event::User { user: None } => Some(finished(Reply::refuse(Status::BadRequest, "User ID not found"))),
            Event::User { user: Some(user) } => Some(
                (
                    UserUpdate::AwaitingParts {
                        id,
                        user: NewUser {
                            profile: user.profile,
                            email: user.email,
                            firstname: user.firstname,
                            lastname: user.lastname,
                            ph: user.ph,
                            password: user.password,
                        },
                    },
                    Effect::ReadParts,
                ),
            ),
            _ => None,
        },
        UserUpdate::AwaitingParts { id, user } => match event {
            Event::Parts { parts } => {
                let NewUser { profile, email, firstname, lastname, ph, password } = user;
                let user = NewUser {
                    profile,
                    email: field_override(&parts, "email", email),
                    firstname: field_override(&parts, "firstname", firstname),
                    lastname: field_override(&parts, "lastname", lastname),
                    ph: field_override(&parts, "ph", ph),
                    password,
                };
                let typed = field_entry(&parts, "password");
                match take_uploads(parts, "profile") {
                    Err(refusal) => Some(finished(Reply::refuse_with(Status::BadRequest, refusal))),
                    Ok(uploads) => match check_form(&user, &typed) {
                        Err(refusal) => Some(finished(Reply::refuse_with(Status::BadRequest, refusal))),
                        Ok(_) => {
                            let mut uploads = uploads;
                            let ghost all = uploads@;
                            let upload = uploads.pop();
                            proof {
                                if all.len() > 0 {
                                    assert(upload_views(all).last() == all.last()@);
                                }
                            }
                            let email = user.email.clone();
                            Some(
                                (
                                    UserUpdate::AwaitingEmailCheck { id, user, upload, password: typed },
                                    Effect::FindOtherUserByEmail { email, id },
                                ),
                            )
                        },
                    },
                }
            },
            _ => None,
        },
        UserUpdate::AwaitingEmailCheck { id, user, upload, password } => match event {
            Event::User { user: Some(_) } => Some(
                finished(Reply::refuse(Status::BadRequest, "Email already in use by another user")),
            ),
            Event::User { user: None } => match upload {
                Some(image) => Some(
                    (UserUpdate::SavingImage { id, user, password }, Effect::SaveProfileImage { upload: image }),
                ),
                None => Some(prepare_write(id, user, password)),
            },
            _ => None,
        },
        UserUpdate::SavingImage { id, user, password } => match event {
            Event::SaveFailed { error } => Some(finished(Reply::refuse_with(Status::InternalServerError, error))),
            Event::ProfileImageSaved { name } => {
                let old = user.profile.clone();
                Some(
                    (
                        UserUpdate::CheckingOldImage { id, user, saved: name, password },
                        Effect::FileExists { directory: Directory::Profiles, name: old },
                    ),
                )
            },
            _ => None,
        },
        UserUpdate::CheckingOldImage { id, user, saved, password: typed } => match event {
            Event::Exists { exists } => {
                if exists {
                    let old = user.profile.clone();
                    Some(
                        (
                            UserUpdate::RemovingOldImage { id, user, saved, password: typed },
                            Effect::RemoveFile { directory: Directory::Profiles, name: old },
                        ),
                    )
                } else {
                    let NewUser { profile, email, firstname, lastname, ph, password } = user;
                    Some(
                        prepare_write(id, NewUser { profile: saved, email, firstname, lastname, ph, password }, typed),
                    )
                }
            },
            _ => None,
        },
        UserUpdate::RemovingOldImage { id, user, saved, password: typed } => match event {
            Event::Removed { removed } => {
                let NewUser { profile, email, firstname, lastname, ph, password } = user;
                Some(prepare_write(id, NewUser { profile: saved, email, firstname, lastname, ph, password }, typed))
            },
            _ => None,
        },
        UserUpdate::Hashing { id, user } => match event {
            Event::PasswordHashed { hash } => {
                let NewUser { profile, email, firstname, lastname, ph, password } = user;
                Some(
                    (
                        UserUpdate::Persisting,
                        Effect::UpdateUser {
                            id,
                            user: NewUser { profile, email, firstname, lastname, ph, password: hash },
                        },
                    ),
                )
            },
            _ => None,
        },
        UserUpdate::Persisting => match event {
            Event::Written { rows } => {
                if rows == 0 {
                    Some(finished(Reply::refuse(Status::NotFound, "User not found")))
                } else {
                    Some(finished(Reply::succeed(Status::Success, "User updated successfully")))
                }
            },
            _ => None,
        },
        UserUpdate::Finished => None,
    }
}

/// Takes an update of a user one step further: from where it stands and
/// the answer to what it last asked for, to where it stands next and what
/// it asks of its driver now. A password that is to be hashed is hashed
/// here. The result is `None` where `event` is no answer to what `state`
/// waits for, and where no hash could be made.
pub fn update_user(state: UserUpdate, event: Event) -> (step: Option<(UserUpdate, Effect)>)
    ensures
        update_user_outcome(state@, event@, step_view(step)),
{
    match update_user_step(state, event) {
        None => None,
        Some((next, effect)) => match answer_locally(effect) {
            Err(effect) => Some((next, effect)),
            Ok(answer) => {
                let ghost asked = update_user_model(state@, event@)->0;
                let step = update_user_step(next, answer);
                assert(answers_locally(asked.1, answer@) && step_view(step) == update_user_model(
                    asked.0,
                    answer@,
                ));
                step
            },
        },
    }
}

/// The effects that an update in `state` asks for as `events` arrive: one
/// for each event, up to the first event that is no answer.
pub open spec fn effects_from(state: UserUpdateView, events: Seq<EventView>) -> Seq<EffectView>
    decreases events.len(),
{
    if events.len() == 0 {
        Seq::empty()
    } else {
        match update_user_model(state, events[0]) {
            None => Seq::empty(),
            Some((next, effect)) => seq![effect] + effects_from(next, events.drop_first()),
        }
    }
}

/// Every effect of an update of the user `id` to which `events` are
/// handed, the first effect included.
pub open spec fn update_effects(id: i64, events: Seq<EventView>) -> Seq<EffectView> {
    seq![start_model(id).1] + effects_from(start_model(id).0, events)
}

/// Whether the user exists, the form over the stored fields passes every
/// rule, and no other user has the e-mail address.
pub open spec fn form_accepted(events: Seq<EventView>) -> bool {
    &&& events.len() > 2
    &&& events[0] matches EventView::User { user: Some(user) }
    &&& events[1] matches EventView::Parts { parts }
    &&& field_uploads(parts, "profile"@) is Ok
    &&& form_verdict(merged(stored_fields(user), parts), new_password(parts)) is Ok
    &&& events[2] == (EventView::User { user: None })
}

/// A finished update asks for nothing more.
proof fn finished_is_silent(events: Seq<EventView>)
    ensures
        effects_from(UserUpdateView::Finished, events).len() == 0,
{
}

/// Every check precedes every side effect: unless the user exists, the
/// form passes every rule and the e-mail address is free, an update
/// stores no image, removes none and writes no row, whatever else it is
/// told.
pub proof fn no_write_without_accepted_form(id: i64, events: Seq<EventView>)
    requires
        !form_accepted(events),
    ensures
        forall|i: int|
            0 <= i < update_effects(id, events).len() ==> !(#[trigger] update_effects(id, events)[i]).writes(),
{
    let first = start_model(id);
    let all = update_effects(id, events);
    let tail = effects_from(first.0, events);
    assert(forall|i: int| 1 <= i < all.len() ==> all[i] == tail[i - 1]);
    if events.len() > 0 && update_user_model(first.0, events[0]) is Some {
        let second = update_user_model(first.0, events[0])->0;
        let rest = events.drop_first();
        let rest_effects = effects_from(second.0, rest);
        assert(tail =~= seq![second.1] + rest_effects);
        assert(forall|i: int| 1 <= i < tail.len() ==> tail[i] == rest_effects[i - 1]);
        finished_is_silent(rest);
        if rest.len() > 0 && update_user_model(second.0, rest[0]) is Some {
            assert(rest[0] == events[1]);
            let third = update_user_model(second.0, rest[0])->0;
            let more = rest.drop_first();
            let more_effects = effects_from(third.0, more);
            assert(rest_effects =~= seq![third.1] + more_effects);
            assert(forall|i: int| 1 <= i < rest_effects.len() ==> rest_effects[i] == more_effects[i - 1]);
            finished_is_silent(more);
            if more.len() > 0 && update_user_model(third.0, more[0]) is Some {
                assert(more[0] == events[2]);
                let fourth = update_user_model(third.0, more[0])->0;
                assert(more_effects =~= seq![fourth.1] + effects_from(fourth.0, more.drop_first()));
                finished_is_silent(more.drop_first());
            }
        }
    }
}

/// A new password that fails the password rule is refused with the rule's
/// message, as a client error and before anything is written: the stored
/// hash stays, and the password is handed to nobody.
pub proof fn failing_password_is_refused(id: i64, user: NewUserView, parts: Seq<PartView>)
    requires
        field_uploads(parts, "profile"@) is Ok,
        contact_verdict(merged(user, parts)) is Ok,
        new_password(parts) matches Some(typed) && password_verdict(typed) is Err,
    ensures
        update_user_model(UserUpdateView::AwaitingParts { id, user }, EventView::Parts { parts }) == Some(
            finish(refused(Status::BadRequest, password_verdict(new_password(parts)->0)->Err_0)),
        ),
{
}

/// A user whose form names no password keeps the stored hash: the row
/// that is written holds it.
pub proof fn unnamed_password_keeps_the_hash(id: i64, user: NewUserView, parts: Seq<PartView>)
    requires
        new_password(parts) is None,
    ensures
        merged(user, parts).password == user.password,
        before_persist(id, merged(user, parts), new_password(parts)) == persist(id, merged(user, parts)),
{
}

} // verus!
