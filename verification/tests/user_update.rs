use content_backend::credentials::verify_password;
use content_backend::flow::{Effect, Event};
use content_backend::media::{Directory, Upload};
use content_backend::models::{NewUser, User};
use content_backend::multipart::Part;
use content_backend::reply::{Body, Reply, Status};
use content_backend::users::update::{update_user, update_user_step, UserUpdate};

const STORED_HASH: &str = "$2b$12$L6Bc/AlTQHyd9liGgGEZyOFLPHNgyxeEPfgYfBCVxJ7JIlwxyVU3u";

fn text(name: &str, value: &str) -> Part {
    Part { name: name.to_string(), filename: None, data: value.as_bytes().to_vec() }
}

fn profile(filename: &str, data: Vec<u8>) -> Part {
    Part { name: "profile".to_string(), filename: Some(filename.to_string()), data }
}

fn user() -> User {
    User {
        id: 6,
        profile: "1_old.png".to_string(),
        email: "ann@example.org".to_string(),
        firstname: "Ann".to_string(),
        lastname: "Lee".to_string(),
        ph: "0123456789".to_string(),
        password: STORED_HASH.to_string(),
        created_at: None,
        updated_at: None,
    }
}

fn fields() -> NewUser {
    NewUser {
        profile: "1_old.png".to_string(),
        email: "ann@example.org".to_string(),
        firstname: "Ann".to_string(),
        lastname: "Lee".to_string(),
        ph: "0123456789".to_string(),
        password: STORED_HASH.to_string(),
    }
}

fn message(status: Status, success: bool, message: &str) -> Effect {
    Effect::Respond { reply: Reply { status, body: Body::Message { success, message: message.to_string() } } }
}

fn run(events: Vec<Event>) -> Vec<Effect> {
    let (mut state, first) = UserUpdate::start(6);
    let mut effects = vec![first];
    for event in events {
        match update_user(state, event) {
            Some((next, effect)) => {
                state = next;
                effects.push(effect);
            }
            None => break,
        }
    }
    effects
}

#[test]
fn an_unknown_user_is_refused() {
    assert_eq!(
        run(vec![Event::User { user: None }]),
        vec![Effect::FindUser { id: 6 }, message(Status::BadRequest, false, "User ID not found")]
    );
    assert_eq!(run(vec![Event::StoreError { error: "down".to_string() }]), vec![Effect::FindUser { id: 6 }]);
}

#[test]
fn a_form_replaces_the_fields_it_names() {
    let effects = run(vec![
        Event::User { user: Some(user()) },
        Event::Parts { parts: vec![text("firstname", " Bea "), text("ph", "00112233445"), text("other", "x")] },
        Event::User { user: None },
        Event::Written { rows: 1 },
    ]);
    assert_eq!(
        effects,
        vec![
            Effect::FindUser { id: 6 },
            Effect::ReadParts,
            Effect::FindOtherUserByEmail { email: "ann@example.org".to_string(), id: 6 },
            Effect::UpdateUser {
                id: 6,
                user: NewUser { firstname: "Bea".to_string(), ph: "00112233445".to_string(), ..fields() },
            },
            message(Status::Success, true, "User updated successfully"),
        ]
    );
}

#[test]
fn the_merged_fields_are_checked_in_order() {
    let cases: Vec<(Vec<Part>, &str)> = vec![
        (vec![text("firstname", ""), text("lastname", "9")], "First name is required"),
        (vec![text("firstname", "Al")], "Firstname must be 3-30 characters"),
        (vec![text("firstname", "Ann3"), text("ph", "1")], "Firstname must contain only letters"),
        (vec![text("lastname", "Lee Roy"), text("email", "x")], "Lastname must contain only letters"),
        (vec![text("ph", "12345"), text("email", "x")], "Phone must be 10-15 digits"),
        (vec![text("ph", "12345678901x")], "Phone must contain only numbers"),
        (vec![text("email", "ann.example.org")], "Email is invalid"),
        (vec![text("email", "  ")], "Email is required"),
    ];
    for (parts, refusal) in cases {
        assert_eq!(
            run(vec![Event::User { user: Some(user()) }, Event::Parts { parts }]),
            vec![Effect::FindUser { id: 6 }, Effect::ReadParts, message(Status::BadRequest, false, refusal)]
        );
    }
}

#[test]
fn an_address_of_another_user_is_refused() {
    let effects = run(vec![
        Event::User { user: Some(user()) },
        Event::Parts { parts: vec![text("email", "bob@example.org"), profile("new.png", vec![1])] },
        Event::User { user: Some(User { id: 7, email: "bob@example.org".to_string(), ..user() }) },
    ]);
    assert_eq!(effects[2], Effect::FindOtherUserByEmail { email: "bob@example.org".to_string(), id: 6 });
    assert_eq!(effects[3], message(Status::BadRequest, false, "Email already in use by another user"));
    assert_eq!(effects.len(), 4);
}

#[test]
fn a_new_image_replaces_the_old_one() {
    let effects = run(vec![
        Event::User { user: Some(user()) },
        Event::Parts { parts: vec![profile("first.png", vec![1]), profile("new.webp", vec![2])] },
        Event::User { user: None },
        Event::ProfileImageSaved { name: "9_new.webp".to_string() },
        Event::Exists { exists: true },
        Event::Removed { removed: false },
        Event::Written { rows: 1 },
    ]);
    assert_eq!(
        effects[3..7],
        [
            Effect::SaveProfileImage { upload: Upload { bytes: vec![2], filename: "new.webp".to_string() } },
            Effect::FileExists { directory: Directory::Profiles, name: "1_old.png".to_string() },
            Effect::RemoveFile { directory: Directory::Profiles, name: "1_old.png".to_string() },
            Effect::UpdateUser { id: 6, user: NewUser { profile: "9_new.webp".to_string(), ..fields() } },
        ]
    );
}

#[test]
fn an_old_image_that_is_gone_is_not_removed() {
    let effects = run(vec![
        Event::User { user: Some(user()) },
        Event::Parts { parts: vec![profile("new.webp", vec![2])] },
        Event::User { user: None },
        Event::ProfileImageSaved { name: "9_new.webp".to_string() },
        Event::Exists { exists: false },
    ]);
    assert_eq!(
        effects[5],
        Effect::UpdateUser { id: 6, user: NewUser { profile: "9_new.webp".to_string(), ..fields() } }
    );
}

#[test]
fn an_image_is_checked_before_the_fields() {
    let effects = run(vec![
        Event::User { user: Some(user()) },
        Event::Parts { parts: vec![text("firstname", ""), profile("new.txt", vec![2])] },
    ]);
    assert_eq!(effects[2], message(Status::BadRequest, false, "Image type must be jpeg, jpg,webp or png "));
    let effects = run(vec![
        Event::User { user: Some(user()) },
        Event::Parts { parts: vec![profile("new.png", vec![2])] },
        Event::User { user: None },
        Event::SaveFailed { error: "Failed to write image file".to_string() },
    ]);
    assert_eq!(effects[4], message(Status::InternalServerError, false, "Failed to write image file"));
}

#[test]
fn a_password_that_passes_the_rule_is_hashed() {
    let effects = run(vec![
        Event::User { user: Some(user()) },
        Event::Parts { parts: vec![text("password", " Abcdef1! ")] },
        Event::User { user: None },
    ]);
    match &effects[3] {
        Effect::UpdateUser { id: 6, user } => {
            assert_ne!(user.password, "Abcdef1!");
            assert!(verify_password("Abcdef1!", &user.password));
            assert_eq!(NewUser { password: STORED_HASH.to_string(), ..user.clone() }, fields());
        }
        other => panic!("{:?}", other),
    }
}

#[test]
fn a_password_that_fails_the_rule_is_refused() {
    let cases = [
        ("weak", "Password must be 6-20 characters"),
        ("abcdef1!", "Password must have at least 1 uppercase letter"),
        ("   ", "Password is required"),
        ("", "Password is required"),
    ];
    for (typed, refusal) in cases {
        let effects = run(vec![
            Event::User { user: Some(user()) },
            Event::Parts { parts: vec![text("firstname", "Bea"), text("password", typed)] },
            Event::User { user: None },
            Event::Written { rows: 1 },
        ]);
        assert_eq!(
            effects,
            vec![Effect::FindUser { id: 6 }, Effect::ReadParts, message(Status::BadRequest, false, refusal)],
            "{:?}",
            typed
        );
    }
}

#[test]
fn the_contact_rules_come_before_the_password_rule() {
    let effects = run(vec![
        Event::User { user: Some(user()) },
        Event::Parts { parts: vec![text("password", "weak"), text("email", "nowhere")] },
    ]);
    assert_eq!(effects[2], message(Status::BadRequest, false, "Email is invalid"));
}

#[test]
fn a_form_without_a_password_keeps_the_stored_hash() {
    let effects = run(vec![
        Event::User { user: Some(user()) },
        Event::Parts { parts: vec![text("lastname", "Ray")] },
        Event::User { user: None },
    ]);
    assert_eq!(
        effects[3],
        Effect::UpdateUser { id: 6, user: NewUser { lastname: "Ray".to_string(), ..fields() } }
    );
}

#[test]
fn a_row_that_is_gone_is_not_found() {
    let effects = run(vec![
        Event::User { user: Some(user()) },
        Event::Parts { parts: vec![] },
        Event::User { user: None },
        Event::Written { rows: 0 },
    ]);
    assert_eq!(effects[3], Effect::UpdateUser { id: 6, user: fields() });
    assert_eq!(effects[4], message(Status::NotFound, false, "User not found"));
}

#[test]
fn user_update_steps_without_the_hash() {
    let state = UserUpdate::AwaitingEmailCheck {
        id: 6,
        user: fields(),
        upload: None,
        password: Some("Abcdef1!".to_string()),
    };
    let (state, effect) = update_user_step(state, Event::User { user: None }).unwrap();
    assert_eq!(effect, Effect::HashPassword { password: "Abcdef1!".to_string() });
    assert_eq!(update_user_step(state.clone(), Event::HashFailed { error: "e".to_string() }), None);
    assert_eq!(
        update_user_step(state, Event::PasswordHashed { hash: "H".to_string() }),
        Some((
            UserUpdate::Persisting,
            Effect::UpdateUser { id: 6, user: NewUser { password: "H".to_string(), ..fields() } }
        ))
    );
    assert_eq!(update_user_step(UserUpdate::Finished, Event::Written { rows: 1 }), None);
    assert_eq!(update_user_step(UserUpdate::Persisting, Event::User { user: None }), None);
}
