use content_backend::flow::{Effect, Event};
use content_backend::media::Directory;
use content_backend::models::{Claims, Post};
use content_backend::posts::delete::{delete_post, PostDeletion};
use content_backend::reply::{Body, Reply, Status};

fn claims(id: i64) -> Claims {
    Claims { id, email: "a@b.io".to_string(), firstname: "Ann".to_string(), lastname: "Lee".to_string(), exp: 0 }
}

fn post(owner: i64, imgs: Vec<Option<&str>>) -> Post {
    Post {
        id: 8,
        userid: owner,
        name: "n".to_string(),
        description: "d".to_string(),
        imgs: imgs.into_iter().map(|slot| slot.map(str::to_string)).collect(),
        created_at: None,
    }
}

fn message(status: Status, success: bool, message: &str) -> Effect {
    Effect::Respond { reply: Reply { status, body: Body::Message { success, message: message.to_string() } } }
}

fn run(claims: Option<&Claims>, events: Vec<Event>) -> Vec<Effect> {
    let (mut state, first) = PostDeletion::start(claims, 8);
    let mut effects = vec![first];
    for event in events {
        match delete_post(state, event) {
            Some((next, effect)) => {
                state = next;
                effects.push(effect);
            }
            None => break,
        }
    }
    effects
}

#[test]
fn the_owner_deletes_a_post_and_its_images() {
    let effects = run(
        Some(&claims(1)),
        vec![
            Event::Post { post: Some(post(1, vec![Some("1_a.png"), None, Some("1_b.png"), Some("1_c.png")])) },
            Event::Exists { exists: true },
            Event::Removed { removed: true },
            Event::Exists { exists: false },
            Event::Exists { exists: true },
            Event::Removed { removed: false },
            Event::Written { rows: 1 },
        ],
    );
    assert_eq!(
        effects,
        vec![
            Effect::FindPost { id: 8 },
            Effect::FileExists { directory: Directory::Posts, name: "1_a.png".to_string() },
            Effect::RemoveFile { directory: Directory::Posts, name: "1_a.png".to_string() },
            Effect::FileExists { directory: Directory::Posts, name: "1_b.png".to_string() },
            Effect::FileExists { directory: Directory::Posts, name: "1_c.png".to_string() },
            Effect::RemoveFile { directory: Directory::Posts, name: "1_c.png".to_string() },
            Effect::DeletePost { id: 8 },
            message(Status::Success, true, "Post deleted successfully"),
        ]
    );
}

#[test]
fn a_post_without_images_is_deleted_at_once() {
    let effects = run(Some(&claims(1)), vec![Event::Post { post: Some(post(1, vec![None])) }, Event::Written { rows: 1 }]);
    assert_eq!(effects[1], Effect::DeletePost { id: 8 });
}

#[test]
fn only_the_row_decides() {
    let effects = run(Some(&claims(1)), vec![Event::Post { post: Some(post(1, vec![])) }, Event::Written { rows: 0 }]);
    assert_eq!(effects[2], message(Status::BadRequest, false, "Cannot delete the post"));
    let effects = run(
        Some(&claims(1)),
        vec![Event::Post { post: Some(post(1, vec![])) }, Event::StoreError { error: "locked".to_string() }],
    );
    assert_eq!(
        effects[2],
        Effect::Respond {
            reply: Reply {
                status: Status::InternalServerError,
                body: Body::Failure { message: "Database error".to_string(), error: "locked".to_string() },
            },
        }
    );
}

#[test]
fn refusals_touch_nothing() {
    assert_eq!(
        run(None, vec![Event::Post { post: Some(post(1, vec![Some("a.png")])) }]),
        vec![message(Status::Unauthorized, false, "Unauthorized: No valid token found")]
    );
    assert_eq!(
        run(Some(&claims(1)), vec![Event::Post { post: None }, Event::Written { rows: 1 }]),
        vec![Effect::FindPost { id: 8 }, message(Status::NotFound, false, "Post not found")]
    );
    assert_eq!(
        run(
            Some(&claims(2)),
            vec![Event::Post { post: Some(post(1, vec![Some("a.png")])) }, Event::Exists { exists: true }]
        ),
        vec![Effect::FindPost { id: 8 }, message(Status::Forbidden, false, "You can only delete your own posts")]
    );
    assert_eq!(
        run(Some(&claims(1)), vec![Event::StoreError { error: "down".to_string() }])[1],
        Effect::Respond {
            reply: Reply {
                status: Status::InternalServerError,
                body: Body::Failure { message: "Database error".to_string(), error: "down".to_string() },
            },
        }
    );
}

#[test]
fn a_deletion_takes_only_answers() {
    let (state, _) = PostDeletion::start(Some(&claims(1)), 8);
    assert_eq!(delete_post(state, Event::Written { rows: 1 }), None);
    assert_eq!(delete_post(PostDeletion::Deleting, Event::Exists { exists: true }), None);
    assert_eq!(delete_post(PostDeletion::Finished, Event::Written { rows: 1 }), None);
    assert_eq!(
        delete_post(
            PostDeletion::CheckingFile { post_id: 8, images: vec![], next: 0 },
            Event::Exists { exists: true }
        ),
        None
    );
}
