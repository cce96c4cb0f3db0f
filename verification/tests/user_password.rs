use content_backend::credentials::verify_password;
use content_backend::flow::{answer_locally, Effect, Event};
use content_backend::models::{ChangePasswordForm, LoginRequest, User};
use content_backend::reply::{Body, Reply, Status};
use content_backend::users::login::{login_user_step, Login};
use content_backend::users::password::{change_password, change_password_step, PasswordChange};

fn form(old: &str, new: &str) -> ChangePasswordForm {
    ChangePasswordForm { old_password: old.to_string(), new_password: new.to_string() }
}

fn message(status: Status, success: bool, message: &str) -> Effect {
    Effect::Respond { reply: Reply { status, body: Body::Message { success, message: message.to_string() } } }
}

fn stored(password: &str) -> String {
    bcrypt::hash(password, 4).unwrap()
}

#[test]
fn both_passwords_are_required() {
    assert_eq!(
        PasswordChange::start(3, form("", "Abcdef1!")),
        (PasswordChange::Finished, message(Status::BadRequest, false, "All fields required"))
    );
    assert_eq!(
        PasswordChange::start(3, form("old", "")),
        (PasswordChange::Finished, message(Status::BadRequest, false, "All fields required"))
    );
}

#[test]
fn the_new_password_must_pass_the_rule() {
    assert_eq!(
        PasswordChange::start(3, form("Old1!old", "short")),
        (PasswordChange::Finished, message(Status::BadRequest, false, "Password must be 6-20 characters"))
    );
    assert_eq!(
        PasswordChange::start(3, form("Old1!old", "abcdefg1!")),
        (
            PasswordChange::Finished,
            message(Status::BadRequest, false, "Password must have at least 1 uppercase letter")
        )
    );
}

#[test]
fn the_old_password_must_be_the_stored_one() {
    let (state, effect) = PasswordChange::start(3, form("Wrong1!x", "Abcdef1!"));
    assert_eq!(effect, Effect::FindPasswordHash { id: 3 });
    assert_eq!(
        change_password(state, Event::PasswordHash { hash: Some(stored("Old1!old")) }),
        Some((PasswordChange::Finished, message(Status::BadRequest, false, "Old password is incorrect")))
    );
}

#[test]
fn the_new_password_must_differ_from_the_old() {
    let (state, _) = PasswordChange::start(3, form("Abcdef1!", "Abcdef1!"));
    assert_eq!(
        change_password(state, Event::PasswordHash { hash: Some(stored("Abcdef1!")) }),
        Some((
            PasswordChange::Finished,
            message(Status::BadRequest, false, "New password cannot be same as old password")
        ))
    );
}

#[test]
fn a_change_writes_a_hash_of_the_new_password() {
    let (state, _) = PasswordChange::start(3, form("Old1!old", "Abcdef1!"));
    let (state, effect) = change_password(state, Event::PasswordHash { hash: Some(stored("Old1!old")) }).unwrap();
    assert_eq!(state, PasswordChange::Persisting);
    let hash = match effect {
        Effect::UpdatePassword { id: 3, hash } => hash,
        other => panic!("{:?}", other),
    };
    assert!(verify_password("Abcdef1!", &hash));
    assert!(!verify_password("Old1!old", &hash));
    assert_eq!(
        change_password(state, Event::Written { rows: 1 }),
        Some((PasswordChange::Finished, message(Status::Success, true, "Password changed successfully")))
    );
}

#[test]
fn after_a_change_only_the_new_password_logs_in() {
    // The hash that a change writes is one that the library makes of the new password.
    let written = match answer_locally(Effect::HashPassword { password: "Abcdef1!".to_string() }) {
        Ok(Event::PasswordHashed { hash }) => hash,
        other => panic!("{:?}", other),
    };
    let user = User {
        id: 3,
        profile: "p".to_string(),
        email: "ann@example.org".to_string(),
        firstname: "Ann".to_string(),
        lastname: "Lee".to_string(),
        ph: "0123456789".to_string(),
        password: written,
        created_at: None,
        updated_at: None,
    };
    let login = |password: &str| {
        let request = LoginRequest { email: "ann@example.org".to_string(), password: password.to_string() };
        let (state, _) = Login::start(request, "k".to_string());
        login_user_step(state, Event::User { user: Some(user.clone()) }).unwrap().1
    };
    assert_eq!(login("Abcdef1!"), Effect::ReadClock);
    assert_eq!(login("Old1!old"), message(Status::BadRequest, false, "Incorrect password"));
}

#[test]
fn an_unknown_user_and_a_failing_store() {
    let (state, _) = PasswordChange::start(3, form("Old1!old", "Abcdef1!"));
    assert_eq!(
        change_password(state.clone(), Event::PasswordHash { hash: None }),
        Some((PasswordChange::Finished, message(Status::BadRequest, false, "User not found")))
    );
    assert_eq!(
        change_password(state.clone(), Event::StoreError { error: "down".to_string() }),
        Some((PasswordChange::Finished, message(Status::InternalServerError, false, "down")))
    );
    assert_eq!(change_password(state, Event::Written { rows: 1 }), None);
    assert_eq!(
        change_password(PasswordChange::Persisting, Event::StoreError { error: "down".to_string() }),
        Some((
            PasswordChange::Finished,
            Effect::Respond {
                reply: Reply {
                    status: Status::InternalServerError,
                    body: Body::Failure { message: "Failed to update password".to_string(), error: "down".to_string() },
                },
            }
        ))
    );
}

#[test]
fn password_change_steps_without_the_hash() {
    let (state, _) = PasswordChange::start(3, form("Old1!old", "Abcdef1!"));
    let (state, effect) =
        change_password_step(state, Event::PasswordHash { hash: Some(stored("Old1!old")) }).unwrap();
    assert_eq!(state, PasswordChange::Hashing { id: 3 });
    assert_eq!(effect, Effect::HashPassword { password: "Abcdef1!".to_string() });
    assert_eq!(
        change_password_step(state.clone(), Event::HashFailed { error: "no salt".to_string() }),
        Some((PasswordChange::Finished, message(Status::InternalServerError, false, "Hashing error: no salt")))
    );
    assert_eq!(
        change_password_step(state, Event::PasswordHashed { hash: "H".to_string() }),
        Some((PasswordChange::Persisting, Effect::UpdatePassword { id: 3, hash: "H".to_string() }))
    );
    assert_eq!(change_password_step(PasswordChange::Finished, Event::Written { rows: 1 }), None);
}
