use content_backend::flow::{Effect, Event};
use content_backend::models::UserData;
use content_backend::reply::{Body, Reply, Status};
use content_backend::users::read::{get_all_users, get_user_by_id, UserListing, UserLookup};

fn user(id: i64) -> UserData {
    UserData {
        id,
        firstname: "Ann".to_string(),
        lastname: "Lee".to_string(),
        email: format!("ann{}@example.org", id),
        ph: "0123456789".to_string(),
        profile: "1_me.png".to_string(),
    }
}

fn message(status: Status, text: &str) -> Effect {
    Effect::Respond { reply: Reply { status, body: Body::Message { success: false, message: text.to_string() } } }
}

#[test]
fn a_user_is_shown_by_id() {
    let (state, effect) = UserLookup::start(4);
    assert_eq!(effect, Effect::FindUserData { id: 4 });
    assert_eq!(
        get_user_by_id(state, Event::UserData { user: Some(user(4)) }),
        Some((
            UserLookup::Finished,
            Effect::Respond { reply: Reply { status: Status::Success, body: Body::User { user: user(4) } } }
        ))
    );
}

#[test]
fn a_user_that_is_not_there() {
    assert_eq!(
        get_user_by_id(UserLookup::AwaitingUser, Event::UserData { user: None }),
        Some((UserLookup::Finished, message(Status::BadRequest, "User not found")))
    );
    assert_eq!(
        get_user_by_id(UserLookup::AwaitingUser, Event::StoreError { error: "down".to_string() }),
        Some((UserLookup::Finished, message(Status::InternalServerError, "down")))
    );
    assert_eq!(get_user_by_id(UserLookup::AwaitingUser, Event::User { user: None }), None);
    assert_eq!(get_user_by_id(UserLookup::Finished, Event::UserData { user: None }), None);
}

#[test]
fn users_are_counted_then_listed() {
    let (state, effect) = UserListing::start(Some("3"), Some("2")).unwrap();
    assert_eq!(state, UserListing::AwaitingCount { limit: 2, offset: 4 });
    assert_eq!(effect, Effect::CountUsers);
    let (state, effect) = get_all_users(state, Event::Count { total: 9 }).unwrap();
    assert_eq!(effect, Effect::ListUsers { limit: 2, offset: 4 });
    assert_eq!(
        get_all_users(state, Event::UserRows { rows: vec![user(5), user(6)] }),
        Some((
            UserListing::Finished,
            Effect::Respond {
                reply: Reply {
                    status: Status::Success,
                    body: Body::Users { total_users: 9, users: vec![user(5), user(6)] },
                },
            }
        ))
    );
}

#[test]
fn a_store_that_fails_shows_no_users() {
    let (state, _) = UserListing::start(None, None).unwrap();
    assert_eq!(state, UserListing::AwaitingCount { limit: 3, offset: 0 });
    let (state, effect) = get_all_users(state, Event::StoreError { error: "down".to_string() }).unwrap();
    assert_eq!(effect, Effect::ListUsers { limit: 3, offset: 0 });
    assert_eq!(
        get_all_users(state, Event::StoreError { error: "down".to_string() }),
        Some((
            UserListing::Finished,
            Effect::Respond {
                reply: Reply { status: Status::Success, body: Body::Users { total_users: 0, users: vec![] } },
            }
        ))
    );
    assert_eq!(get_all_users(UserListing::Finished, Event::Count { total: 1 }), None);
    assert_eq!(get_all_users(UserListing::AwaitingRows { total: 1 }, Event::Count { total: 1 }), None);
    assert_eq!(UserListing::start(Some("-9223372036854775808"), Some("5")), None);
}
