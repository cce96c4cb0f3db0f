use content_backend::auth::{AuthMiddlewareFactory, Gate};
use content_backend::flow::{Effect, Event};
use content_backend::models::{Claims, LoginRequest, User};
use content_backend::reply::{Body, Reply, Status};
use content_backend::token::{issue_token, read_token};
use content_backend::users::login::{login_user, login_user_step, Login};

fn user(password_hash: String) -> User {
    User {
        id: 12,
        profile: "1_me.png".to_string(),
        email: "ann@example.org".to_string(),
        firstname: "Ann".to_string(),
        lastname: "Lee".to_string(),
        ph: "0123456789".to_string(),
        password: password_hash,
        created_at: None,
        updated_at: None,
    }
}

fn request(email: &str, password: &str) -> LoginRequest {
    LoginRequest { email: email.to_string(), password: password.to_string() }
}

fn refusal(message: &str) -> Effect {
    Effect::Respond {
        reply: Reply { status: Status::BadRequest, body: Body::Message { success: false, message: message.to_string() } },
    }
}

#[test]
fn a_login_trims_both_fields() {
    let (state, effect) = Login::start(request("  ann@example.org\n", " Abcdef1! "), "k".to_string());
    assert_eq!(effect, Effect::FindUserByEmail { email: "ann@example.org".to_string() });
    assert_eq!(state, Login::AwaitingUser { password: "Abcdef1!".to_string(), secret: "k".to_string() });
}

#[test]
fn an_unknown_address_is_refused() {
    let (state, _) = Login::start(request("x@y.io", "pw"), "k".to_string());
    assert_eq!(login_user(state, Event::User { user: None }), Some((Login::Finished, refusal("User not found"))));
}

#[test]
fn a_wrong_password_is_refused() {
    let stored = user(bcrypt::hash("Abcdef1!", 4).unwrap());
    let (state, _) = Login::start(request("ann@example.org", "abcdef1!"), "k".to_string());
    assert_eq!(
        login_user(state, Event::User { user: Some(stored) }),
        Some((Login::Finished, refusal("Incorrect password")))
    );
    let (state, _) = Login::start(request("ann@example.org", "Abcdef1!"), "k".to_string());
    assert_eq!(
        login_user(state, Event::User { user: Some(user("Abcdef1!".to_string())) }),
        Some((Login::Finished, refusal("Incorrect password")))
    );
}

#[test]
fn a_login_issues_a_token_that_authenticates() {
    let stored = user(bcrypt::hash("Abcdef1!", 4).unwrap());
    let before = chrono::Utc::now().timestamp();
    let (state, _) = Login::start(request("ann@example.org", "Abcdef1!"), "k".to_string());
    let (state, effect) = login_user(state, Event::User { user: Some(stored) }).unwrap();
    let after = chrono::Utc::now().timestamp();
    assert_eq!(state, Login::Finished);
    let token = match effect {
        Effect::Respond { reply: Reply { status: Status::Success, body: Body::Token { message, token } } } => {
            assert_eq!(message, "Login successful");
            token
        }
        other => panic!("{:?}", other),
    };
    let claims = read_token(&token, "k").unwrap();
    assert_eq!((claims.id, claims.email.as_str()), (12, "ann@example.org"));
    assert_eq!((claims.firstname.as_str(), claims.lastname.as_str()), ("Ann", "Lee"));
    assert!(before + 86400 <= claims.exp as i64 && claims.exp as i64 <= after + 86400);
    let gate = AuthMiddlewareFactory.new_transform(Some("k".to_string()));
    assert_eq!(gate.call(Some(&format!("Bearer {}", token))), Gate::Continue { claims });
}

#[test]
fn the_token_is_made_of_the_clock_and_the_user() {
    let state = Login::AwaitingClock {
        id: 12,
        email: "ann@example.org".to_string(),
        firstname: "Ann".to_string(),
        lastname: "Lee".to_string(),
        secret: "k".to_string(),
    };
    let expected = issue_token(
        &Claims {
            id: 12,
            email: "ann@example.org".to_string(),
            firstname: "Ann".to_string(),
            lastname: "Lee".to_string(),
            exp: 1700086400,
        },
        "k",
    )
    .unwrap();
    assert_eq!(
        login_user_step(state.clone(), Event::Clock { now: 1700000000 }),
        Some((
            Login::Finished,
            Effect::Respond {
                reply: Reply {
                    status: Status::Success,
                    body: Body::Token { message: "Login successful".to_string(), token: expected },
                },
            }
        ))
    );
    assert_eq!(login_user_step(state.clone(), Event::Clock { now: i64::MAX }), None);
    assert_eq!(login_user_step(state, Event::User { user: None }), None);
    assert_eq!(login_user_step(Login::Finished, Event::Clock { now: 0 }), None);
}

#[test]
fn the_step_asks_for_the_clock() {
    let stored = user(bcrypt::hash("Abcdef1!", 4).unwrap());
    let (state, _) = Login::start(request("ann@example.org", "Abcdef1!"), "k".to_string());
    let (state, effect) = login_user_step(state, Event::User { user: Some(stored) }).unwrap();
    assert_eq!(effect, Effect::ReadClock);
    assert_eq!(
        state,
        Login::AwaitingClock {
            id: 12,
            email: "ann@example.org".to_string(),
            firstname: "Ann".to_string(),
            lastname: "Lee".to_string(),
            secret: "k".to_string(),
        }
    );
}
