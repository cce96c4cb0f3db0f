//! The registration of a user: a form carries a profile image, the contact
//! fields and a password. The pipeline reads the form and checks all of
//! it, makes sure that the e-mail address is not taken, stores the image,
//! hashes the password and inserts the user.

use vstd::prelude::*;
use crate::flow::{answer_locally, answers_locally, respond, Effect, EffectView, Event, EventView};
use crate::media::{upload_views, Upload, UploadView};
use crate::models::{NewUser, NewUserView};
use crate::multipart::{field_text, field_uploads, field_value, take_uploads, PartView};
use crate::reply::{refused, succeeded, Reply, ReplyView, Status};
use crate::validation::{email_verdict, firstname_verdict, lastname_verdict, password_verdict, phone_verdict,
    verdict, Validator};

verus! {

/// The text fields of a registration form.
#[derive(Debug, Clone, PartialEq, Eq)]
pub struct RegistrationForm {
    pub email: String,
    pub firstname: String,
    pub lastname: String,
    pub ph: String,
    pub password: String,
}

/// The text fields of a registration form, as contracts see them.
pub ghost struct RegistrationFormView {
    pub email: Seq<char>,
    pub firstname: Seq<char>,
    pub lastname: Seq<char>,
    pub ph: Seq<char>,
    pub password: Seq<char>,
}

impl View for RegistrationForm {
    type V = RegistrationFormView;

    open spec fn view(&self) -> RegistrationFormView {
        RegistrationFormView {
            email: self.email@,
            firstname: self.firstname@,
            lastname: self.lastname@,
            ph: self.ph@,
            password: self.password@,
        }
    }
}

impl RegistrationFormView {
    /// Whether every text field holds something.
    pub open spec fn complete(self) -> bool {
        self.email.len() > 0 && self.firstname.len() > 0 && self.lastname.len() > 0 && self.ph.len() > 0
            && self.password.len() > 0
    }

    /// The first refusal among the rules for first name, last name, phone,
    /// e-mail address and password, in this order.
    pub open spec fn verdict(self) -> Result<(), Seq<char>> {
        if firstname_verdict(self.firstname) is Err {
            firstname_verdict(self.firstname)
        } else if lastname_verdict(self.lastname) is Err {
            lastname_verdict(self.lastname)
        } else if phone_verdict(self.ph) is Err {
            phone_verdict(self.ph)
        } else if email_verdict(self.email) is Err {
            email_verdict(self.email)
        } else {
            password_verdict(self.password)
        }
    }
}

/// Where a registration stands.
#[derive(Debug, Clone, PartialEq, Eq)]
pub enum Registration {
    /// The form's parts were asked for.
    AwaitingParts,
    /// It was asked whether a user has the e-mail address.
    AwaitingEmailCheck { form: RegistrationForm, upload: Upload },
    /// The profile image was handed over to be stored.
    SavingImage { form: RegistrationForm },
    /// The password was handed over to be hashed.
    Hashing { form: RegistrationForm, saved: String },
    /// The user was handed over to be inserted.
    Persisting,
    /// The request was answered.
    Finished,
}

/// The state of a registration, as contracts see it.
pub ghost enum RegistrationView {
    AwaitingParts,
    AwaitingEmailCheck { form: RegistrationFormView, upload: UploadView },
    SavingImage { form: RegistrationFormView },
    Hashing { form: RegistrationFormView, saved: Seq<char> },
    Persisting,
    Finished,
}

impl View for Registration {
    type V = RegistrationView;

    open spec fn view(&self) -> RegistrationView {
        match *self {
            Registration::AwaitingParts => RegistrationView::AwaitingParts,
            Registration::AwaitingEmailCheck { form, upload } => RegistrationView::AwaitingEmailCheck {
                form: form@,
                upload: upload@,
            },
            Registration::SavingImage { form } => RegistrationView::SavingImage { form: form@ },
            Registration::Hashing { form, saved } => RegistrationView::Hashing { form: form@, saved: saved@ },
            Registration::Persisting => RegistrationView::Persisting,
            Registration::Finished => RegistrationView::Finished,
        }
    }
}

/// A step of the pipeline, as contracts see it.
pub open spec fn step_view(step: Option<(Registration, Effect)>) -> Option<(RegistrationView, EffectView)> {
    match step {
        Some((state, effect)) => Some((state@, effect@)),
        None => None,
    }
}

/// The step that answers the request and ends the pipeline.
pub open spec fn finish(reply: ReplyView) -> (RegistrationView, EffectView) {
    (RegistrationView::Finished, respond(reply))
}

/// The text fields that the parts of a form give.
pub open spec fn form_of(parts: Seq<PartView>) -> RegistrationFormView {
    RegistrationFormView {
        email: field_text(parts, "email"@),
        firstname: field_text(parts, "firstname"@),
        lastname: field_text(parts, "lastname"@),
        ph: field_text(parts, "ph"@),
        password: field_text(parts, "password"@),
    }
}

/// The answer to a registration under an e-mail address that a user has.
pub open spec fn email_taken() -> ReplyView {
    refused(Status::BadRequest, "Email already exists"@)
}

/// The answer to a registration that was stored.
pub open spec fn registered() -> ReplyView {
    succeeded(Status::Created, "User created successfully"@)
}

/// How a registration begins: the form is asked for.
pub open spec fn start_model() -> (RegistrationView, EffectView) {
    (RegistrationView::AwaitingParts, EffectView::ReadParts)
}

/// The answer to a form that lacks a field or the profile image.
pub open spec fn incomplete() -> ReplyView {
    refused(Status::BadRequest, "All fields are required"@)
}

/// What a form asks for, read from its parts: the text fields and the
/// profile image, which is the last one where the form holds several; or
/// the first refusal: of an image, of a form that lacks a field or the
/// image, or of a field that fails its rule.
pub open spec fn request_of(parts: Seq<PartView>) -> Result<(RegistrationFormView, UploadView), ReplyView> {
    match field_uploads(parts, "profile"@) {
        Err(refusal) => Err(refused(Status::BadRequest, refusal)),
        Ok(uploads) => if !form_of(parts).complete() || uploads.len() == 0 {
            Err(incomplete())
        } else {
            match form_of(parts).verdict() {
                Err(refusal) => Err(refused(Status::BadRequest, refusal)),
                Ok(_) => Ok((form_of(parts), uploads.last())),
            }
        },
    }
}

/// The step that `event` causes in `state`; `None` where `event` does not
/// answer what `state` waits for.
pub open spec fn register_user_model(state: RegistrationView, event: EventView) -> Option<
    (RegistrationView, EffectView),
> {
    match state {
        RegistrationView::AwaitingParts => match event {
            EventView::Parts { parts } => match request_of(parts) {
                Err(reply) => Some(finish(reply)),
                Ok((form, upload)) => Some(
                    (
                        RegistrationView::AwaitingEmailCheck { form, upload },
                        EffectView::FindUserByEmail { email: form.email },
                    ),
                ),
            },
            _ => None,
        },
        RegistrationView::AwaitingEmailCheck { form, upload } => match event {
            EventView::User { user: Some(_) } => Some(finish(email_taken())),
            EventView::User { user: None } => Some(
                (RegistrationView::SavingImage { form }, EffectView::SaveProfileImage { upload }),
            ),
            _ => None,
        },
        RegistrationView::SavingImage { form } => match event {
            EventView::SaveFailed { error } => Some(finish(refused(Status::InternalServerError, error))),
            EventView::ProfileImageSaved { name } => Some(
                (
                    RegistrationView::Hashing { form, saved: name },
                    EffectView::HashPassword { password: form.password },
                ),
            ),
            _ => None,
        },
        RegistrationView::Hashing { form, saved } => match event {
            EventView::PasswordHashed { hash } => Some(
                (
                    RegistrationView::Persisting,
                    EffectView::InsertUser {
                        user: NewUserView {
                            profile: saved,
                            email: form.email,
                            firstname: form.firstname,
                            lastname: form.lastname,
                            ph: form.ph,
                            password: hash,
                        },
                    },
                ),
            ),
            _ => None,
        },
        RegistrationView::Persisting => match event {
            EventView::Written { rows } => Some(finish(registered())),
            _ => None,
        },
        RegistrationView::Finished => None,
    }
}

/// What the pipeline hands to its driver for `event` in `state`: the step
/// of [`register_user_model`], gone one step further where that step asks
/// for something that the library answers itself.
pub open spec fn register_user_outcome(
    state: RegistrationView,
    event: EventView,
    out: Option<(RegistrationView, EffectView)>,
) -> bool {
    match register_user_model(state, event) {
        None => out is None,
        Some((next, effect)) => if effect.is_local() {
            exists|answer: EventView| #[trigger]
                answers_locally(effect, answer) && out == register_user_model(next, answer)
        } else {
            out == Some((next, effect))
        },
    }
}

/// Ends the pipeline with `reply`.
fn finished(reply: Reply) -> (step: (Registration, Effect))
    ensures
        (step.0@, step.1@) == finish(reply@),
{
    (Registration::Finished, Effect::Respond { reply })
}

impl RegistrationForm {
    /// Whether every field holds something.
    pub fn is_complete(&self) -> (complete: bool)
        ensures
            complete == self@.complete(),
    {
        !self.email.as_str().is_empty() && !self.firstname.as_str().is_empty()
            && !self.lastname.as_str().is_empty() && !self.ph.as_str().is_empty()
            && !self.password.as_str().is_empty()
    }
}

impl RegistrationForm {
    /// Applies the rules to the fields, in their order.
    pub fn check(&self) -> (r: Result<(), String>)
        ensures
            verdict(r) == self@.verdict(),
    {
        match Validator::validate_firstname(self.firstname.as_str()) {
            Err(refusal) => {
                return Err(refusal);
            },
            Ok(_) => {},
        }
        match Validator::validate_lastname(self.lastname.as_str()) {
            Err(refusal) => {
                return Err(refusal);
            },
            Ok(_) => {},
        }
        match Validator::validate_phone(self.ph.as_str()) {
            Err(refusal) => {
                return Err(refusal);
            },
            Ok(_) => {},
        }
        match Validator::validate_email(self.email.as_str()) {
            Err(refusal) => {
                return Err(refusal);
            },
            Ok(_) => {},
        }
        Validator::validate_password(self.password.as_str())
    }
}

impl Registration {
    /// Begins a registration.
    pub fn start() -> (step: (Registration, Effect))
        ensures
            (step.0@, step.1@) == start_model(),
    {
        (Registration::AwaitingParts, Effect::ReadParts)
    }
}

/// Takes a registration one step further, without answering anything
/// itself. The result is `None` where `event` is no answer to what `state`
/// waits for.
pub fn register_user_step(state: Registration, event: Event) -> (step: Option<(Registration, Effect)>)
    ensures
        step_view(step) == register_user_model(state@, event@),
{
    match state {
        Registration::AwaitingParts => match event {
            Event::Parts { parts } => {
                let form = RegistrationForm {
                    email: field_value(&parts, "email"),
                    firstname: field_value(&parts, "firstname"),
                    lastname: field_value(&parts, "lastname"),
                    ph: field_value(&parts, "ph"),
                    password: field_value(&parts, "password"),
                };
                match take_uploads(parts, "profile") {
                    Err(refusal) => Some(finished(Reply::refuse_with(Status::BadRequest, refusal))),
                    Ok(uploads) => {
                        let mut uploads = uploads;
                        let ghost all = uploads@;
                        let last = uploads.pop();
                        proof {
                            if all.len() > 0 {
                                assert(upload_views(all).last() == all.last()@);
                            }
                        }
                        match last {
                            None => Some(finished(Reply::refuse(Status::BadRequest, "All fields are required"))),
                            Some(upload) => {
                                if !form.is_complete() {
                                    Some(finished(Reply::refuse(Status::BadRequest, "All fields are required")))
                                } else {
                                    match form.check() {
                                        Err(refusal) => Some(
                                            finished(Reply::refuse_with(Status::BadRequest, refusal)),
                                        ),
                                        Ok(_) => {
                                            let email = form.email.clone();
                                            Some(
                                                (
                                                    Registration::AwaitingEmailCheck { form, upload },
                                                    Effect::FindUserByEmail { email },
                                                ),
                                            )
                                        },
                                    }
                                }
                            },
                        }
                    },
                }
            },
            _ => None,
        },
        Registration::AwaitingEmailCheck { form, upload } => match event {
            Event::User { user: Some(_) } => Some(finished(Reply::refuse(Status::BadRequest, "Email already exists"))),
            Event::User { user: None } => Some((Registration::SavingImage { form }, Effect::SaveProfileImage { upload })),
            _ => None,
        },
        Registration::SavingImage { form } => match event {
            Event::SaveFailed { error } => Some(finished(Reply::refuse_with(Status::InternalServerError, error))),
            Event::ProfileImageSaved { name } => {
                let password = form.password.clone();
                Some((Registration::Hashing { form, saved: name }, Effect::HashPassword { password }))
            },
            _ => None,
        },
        Registration::Hashing { form, saved } => match event {
            Event::PasswordHashed { hash } => {
                let RegistrationForm { email, firstname, lastname, ph, password } = form;
                Some(
                    (
                        Registration::Persisting,
                        Effect::InsertUser {
                            user: NewUser { profile: saved, email, firstname, lastname, ph, password: hash },
                        },
                    ),
                )
            },
            _ => None,
        },
        Registration::Persisting => match event {
            Event::Written { rows } => Some(finished(Reply::succeed(Status::Created, "User created successfully"))),
            _ => None,
        },
        Registration::Finished => None,
    }
}

/// Takes a registration one step further: from where it stands and the
/// answer to what it last asked for, to where it stands next and what it
/// asks of its driver now. The password is hashed here. The result is
/// `None` where `event` is no answer to what `state` waits for, and where
/// no hash could be made.
pub fn register_user(state: Registration, event: Event) -> (step: Option<(Registration, Effect)>)
    ensures
        register_user_outcome(state@, event@, step_view(step)),
{
    match register_user_step(state, event) {
        None => None,
        Some((next, effect)) => match answer_locally(effect) {
            Err(effect) => Some((next, effect)),
            Ok(answer) => {
                let ghost asked = register_user_model(state@, event@)->0;
                let step = register_user_step(next, answer);
                assert(answers_locally(asked.1, answer@) && step_view(step) == register_user_model(
                    asked.0,
                    answer@,
                ));
                step
            },
        },
    }
}

/// The effects that a registration in `state` asks for as `events` arrive:
/// one for each event, up to the first event that is no answer.
pub open spec fn effects_from(state: RegistrationView, events: Seq<EventView>) -> Seq<EffectView>
    decreases events.len(),
{
    if events.len() == 0 {
        Seq::empty()
    } else {
        match register_user_model(state, events[0]) {
            None => Seq::empty(),
            Some((next, effect)) => seq![effect] + effects_from(next, events.drop_first()),
        }
    }
}

/// Every effect of a registration to which `events` are handed, the first
/// effect included.
pub open spec fn registration_effects(events: Seq<EventView>) -> Seq<EffectView> {
    seq![start_model().1] + effects_from(start_model().0, events)
}

/// A finished registration asks for nothing more.
proof fn finished_is_silent(events: Seq<EventView>)
    ensures
        effects_from(RegistrationView::Finished, events).len() == 0,
{
}

/// A registration creates one row at most: whatever it is told, it asks
/// for the insertion of a user at most once, and for no other change of a
/// row.
pub proof fn registration_inserts_once(events: Seq<EventView>, i: int, j: int)
    requires
        0 <= i < registration_effects(events).len(),
        0 <= j < registration_effects(events).len(),
        registration_effects(events)[i].writes_store(),
        registration_effects(events)[j].writes_store(),
    ensures
        i == j,
        registration_effects(events)[i] is InsertUser,
{
    let s0 = start_model().0;
    let all = registration_effects(events);
    let e0 = effects_from(s0, events);
    assert(all[0] == start_model().1);
    assert(forall|k: int| 1 <= k < all.len() ==> all[k] == e0[k - 1]);
    if events.len() > 0 && register_user_model(s0, events[0]) is Some {
        let step1 = register_user_model(s0, events[0])->0;
        let r1 = events.drop_first();
        let e1 = effects_from(step1.0, r1);
        assert(e0 =~= seq![step1.1] + e1);
        assert(forall|k: int| 1 <= k < e0.len() ==> e0[k] == e1[k - 1]);
        finished_is_silent(r1);
        if r1.len() > 0 && register_user_model(step1.0, r1[0]) is Some {
            let step2 = register_user_model(step1.0, r1[0])->0;
            let r2 = r1.drop_first();
            let e2 = effects_from(step2.0, r2);
            assert(e1 =~= seq![step2.1] + e2);
            assert(forall|k: int| 1 <= k < e1.len() ==> e1[k] == e2[k - 1]);
            finished_is_silent(r2);
            if r2.len() > 0 && register_user_model(step2.0, r2[0]) is Some {
                let step3 = register_user_model(step2.0, r2[0])->0;
                let r3 = r2.drop_first();
                let e3 = effects_from(step3.0, r3);
                assert(e2 =~= seq![step3.1] + e3);
                assert(forall|k: int| 1 <= k < e2.len() ==> e2[k] == e3[k - 1]);
                finished_is_silent(r3);
                if r3.len() > 0 && register_user_model(step3.0, r3[0]) is Some {
                    let step4 = register_user_model(step3.0, r3[0])->0;
                    let r4 = r3.drop_first();
                    let e4 = effects_from(step4.0, r4);
                    assert(e3 =~= seq![step4.1] + e4);
                    assert(forall|k: int| 1 <= k < e3.len() ==> e3[k] == e4[k - 1]);
                    finished_is_silent(r4);
                    if r4.len() > 0 && register_user_model(step4.0, r4[0]) is Some {
                        let step5 = register_user_model(step4.0, r4[0])->0;
                        let r5 = r4.drop_first();
                        let e5 = effects_from(step5.0, r5);
                        assert(e4 =~= seq![step5.1] + e5);
                        finished_is_silent(r5);
                    }
                }
            }
        }
    }
}

/// An e-mail address that a user has is refused: where the store answers
/// the lookup of the address with a user, the registration ends at once
/// with the answer that the address exists, and it has neither stored an
/// image nor asked for a row.
pub proof fn taken_email_is_refused(form: RegistrationFormView, upload: UploadView, event: EventView)
    requires
        event matches EventView::User { user: Some(_) },
    ensures
        register_user_model(RegistrationView::AwaitingEmailCheck { form, upload }, event) == Some(
            finish(email_taken()),
        ),
        email_taken().status.is_client_error(),
{
}

/// A complete form with a profile image, whose fields pass their rules and
/// whose address no user has, leads to the insertion of one user under
/// that address, with a password hash against which the form's password
/// verifies.
pub proof fn registration_inserts_the_form(
    parts: Seq<PartView>,
    saved: Seq<char>,
    hashed: EventView,
    rows: usize,
)
    requires
        field_uploads(parts, "profile"@) matches Ok(uploads) && uploads.len() > 0,
        form_of(parts).complete(),
        form_of(parts).verdict() is Ok,
        answers_locally(EffectView::HashPassword { password: form_of(parts).password }, hashed),
        hashed is PasswordHashed,
    ensures
        registration_effects(
            seq![
                EventView::Parts { parts },
                EventView::User { user: None },
                EventView::ProfileImageSaved { name: saved },
                hashed,
                EventView::Written { rows },
            ],
        ).len() == 6,
        registration_effects(
            seq![
                EventView::Parts { parts },
                EventView::User { user: None },
                EventView::ProfileImageSaved { name: saved },
                hashed,
                EventView::Written { rows },
            ],
        )[4] matches EffectView::InsertUser { user } && user.email == form_of(parts).email
            && crate::credentials::password_matches(form_of(parts).password, user.password),
        registration_effects(
            seq![
                EventView::Parts { parts },
                EventView::User { user: None },
                EventView::ProfileImageSaved { name: saved },
                hashed,
                EventView::Written { rows },
            ],
        )[5] == respond(registered()),
{
    let events = seq![
        EventView::Parts { parts },
        EventView::User { user: None },
        EventView::ProfileImageSaved { name: saved },
        hashed,
        EventView::Written { rows },
    ];
    let s0 = start_model().0;
    let step1 = register_user_model(s0, events[0])->0;
    let r1 = events.drop_first();
    let step2 = register_user_model(step1.0, r1[0])->0;
    let r2 = r1.drop_first();
    let step3 = register_user_model(step2.0, r2[0])->0;
    let r3 = r2.drop_first();
    let step4 = register_user_model(step3.0, r3[0])->0;
    let r4 = r3.drop_first();
    let step5 = register_user_model(step4.0, r4[0])->0;
    let r5 = r4.drop_first();
    assert(r5.len() == 0);
    assert(effects_from(step5.0, r5) =~= Seq::empty());
    assert(effects_from(step4.0, r4) =~= seq![step5.1]);
    assert(effects_from(step3.0, r3) =~= seq![step4.1, step5.1]);
    assert(effects_from(step2.0, r2) =~= seq![step3.1, step4.1, step5.1]);
    assert(effects_from(step1.0, r1) =~= seq![step2.1, step3.1, step4.1, step5.1]);
    assert(effects_from(s0, events) =~= seq![step1.1, step2.1, step3.1, step4.1, step5.1]);
}

/// Whether the first answer is a form that passes every check, and the
/// second says that no user has its e-mail address.
pub open spec fn form_accepted(events: Seq<EventView>) -> bool {
    &&& events.len() > 1
    &&& events[0] matches EventView::Parts { parts }
    &&& request_of(parts) is Ok
    &&& events[1] == (EventView::User { user: None })
}

/// Every check precedes every side effect: unless the form holds every
/// field and a profile image, each of them passes its rule and the e-mail
/// address is free, a registration stores no image and inserts no row,
/// whatever else it is told.
pub proof fn no_write_without_accepted_form(events: Seq<EventView>)
    requires
        !form_accepted(events),
    ensures
        forall|i: int|
            0 <= i < registration_effects(events).len() ==> !(#[trigger] registration_effects(events)[i]).writes(),
{
    let first = start_model();
    let all = registration_effects(events);
    let tail = effects_from(first.0, events);
    assert(forall|i: int| 1 <= i < all.len() ==> all[i] == tail[i - 1]);
    if events.len() > 0 && register_user_model(first.0, events[0]) is Some {
        let second = register_user_model(first.0, events[0])->0;
        let rest = events.drop_first();
        let rest_effects = effects_from(second.0, rest);
        assert(tail =~= seq![second.1] + rest_effects);
        assert(forall|i: int| 1 <= i < tail.len() ==> tail[i] == rest_effects[i - 1]);
        finished_is_silent(rest);
        if rest.len() > 0 && register_user_model(second.0, rest[0]) is Some {
            assert(rest[0] == events[1]);
            let third = register_user_model(second.0, rest[0])->0;
            assert(rest_effects =~= seq![third.1] + effects_from(third.0, rest.drop_first()));
            finished_is_silent(rest.drop_first());
        }
    }
}

} // verus!
