use content_backend::flow::{Effect, Event};
use content_backend::media::{Directory, Upload};
use content_backend::models::{Claims, Post, PostChanges, PostData};
use content_backend::multipart::Part;
use content_backend::posts::update::{update_post, PostUpdate};
use content_backend::reply::{Body, Reply, Status};

fn claims(id: i64) -> Claims {
    Claims { id, email: "a@b.io".to_string(), firstname: "Ann".to_string(), lastname: "Lee".to_string(), exp: 0 }
}

fn post(owner: i64, imgs: Vec<Option<&str>>) -> Post {
    Post {
        id: 5,
        userid: owner,
        name: "old name".to_string(),
        description: "old description".to_string(),
        imgs: imgs.into_iter().map(|slot| slot.map(str::to_string)).collect(),
        created_at: None,
    }
}

fn text(name: &str, value: &str) -> Part {
    Part { name: name.to_string(), filename: None, data: value.as_bytes().to_vec() }
}

fn image(filename: &str, data: Vec<u8>) -> Part {
    Part { name: "postImgs".to_string(), filename: Some(filename.to_string()), data }
}

fn refusal(status: Status, message: &str) -> Effect {
    Effect::Respond { reply: Reply { status, body: Body::Message { success: false, message: message.to_string() } } }
}

/// Hands `events` to an update, one by one, and collects what it asks for.
fn run(claims: Option<&Claims>, events: Vec<Event>) -> Vec<Effect> {
    let (mut state, first) = PostUpdate::start(claims, 5);
    let mut effects = vec![first];
    for event in events {
        match update_post(state, event) {
            Some((next, effect)) => {
                state = next;
                effects.push(effect);
            }
            None => break,
        }
    }
    effects
}

fn writes(effect: &Effect) -> bool {
    matches!(
        effect,
        Effect::RemoveFile { .. }
            | Effect::SaveImages { .. }
            | Effect::SaveProfileImage { .. }
            | Effect::InsertPost { .. }
            | Effect::UpdatePost { .. }
            | Effect::DeletePost { .. }
            | Effect::InsertUser { .. }
            | Effect::UpdateUser { .. }
            | Effect::UpdatePassword { .. }
    )
}

#[test]
fn without_claims_nothing_is_asked_for() {
    let effects = run(None, vec![Event::Post { post: Some(post(1, vec![])) }]);
    assert_eq!(effects, vec![refusal(Status::Unauthorized, "Unauthorized: No valid token found")]);
}

#[test]
fn a_missing_post_is_not_found() {
    let effects = run(Some(&claims(1)), vec![Event::Post { post: None }, Event::Parts { parts: vec![] }]);
    assert_eq!(effects, vec![Effect::FindPost { id: 5 }, refusal(Status::NotFound, "Post not found")]);
}

#[test]
fn a_failing_lookup_is_a_server_error() {
    let effects = run(Some(&claims(1)), vec![Event::StoreError { error: "down".to_string() }]);
    assert_eq!(
        effects[1],
        Effect::Respond {
            reply: Reply {
                status: Status::InternalServerError,
                body: Body::Failure { message: "Database error".to_string(), error: "down".to_string() },
            },
        }
    );
}

#[test]
fn another_users_post_is_forbidden_before_anything_is_touched() {
    let effects = run(
        Some(&claims(2)),
        vec![
            Event::Post { post: Some(post(1, vec![Some("1_a.png")])) },
            Event::Parts { parts: vec![text("deleteImg", "1_a.png"), image("b.png", vec![1])] },
            Event::Exists { exists: true },
            Event::Removed { removed: true },
        ],
    );
    assert_eq!(
        effects,
        vec![Effect::FindPost { id: 5 }, refusal(Status::Forbidden, "You can only update your own posts")]
    );
    assert!(!effects.iter().any(writes));
}

#[test]
fn the_owner_renames_a_post() {
    let effects = run(
        Some(&claims(1)),
        vec![
            Event::Post { post: Some(post(1, vec![Some("1_a.png")])) },
            Event::Parts { parts: vec![text("name", "  new name \n"), text("ignored", "x")] },
            Event::PostWritten { post: Post { name: "new name".to_string(), ..post(1, vec![Some("1_a.png")]) } },
        ],
    );
    assert_eq!(effects.len(), 4);
    assert_eq!(effects[1], Effect::ReadParts);
    assert_eq!(
        effects[2],
        Effect::UpdatePost {
            id: 5,
            changes: PostChanges { name: Some("new name".to_string()), description: None, imgs: None },
        }
    );
    assert_eq!(
        effects[3],
        Effect::Respond {
            reply: Reply {
                status: Status::Success,
                body: Body::Post {
                    message: Some("Post updated successfully".to_string()),
                    post: PostData {
                        id: 5,
                        userid: 1,
                        name: "new name".to_string(),
                        description: "old description".to_string(),
                        imgs: vec![Some("1_a.png".to_string())],
                        created_at: None,
                    },
                },
            },
        }
    );
}

#[test]
fn an_update_that_supplies_nothing_writes_no_field() {
    let effects = run(
        Some(&claims(1)),
        vec![
            Event::Post { post: Some(post(1, vec![Some("1_a.png")])) },
            Event::Parts { parts: vec![text("name", "   "), text("description", ""), text("deleteImg", " ")] },
        ],
    );
    assert_eq!(
        effects[2],
        Effect::UpdatePost { id: 5, changes: PostChanges { name: None, description: None, imgs: None } }
    );
}

#[test]
fn images_are_deleted_then_added() {
    let stored = post(1, vec![Some("1_a.png"), None, Some("1_b.png"), Some("1_a.png"), Some("1_c.png")]);
    let effects = run(
        Some(&claims(1)),
        vec![
            Event::Post { post: Some(stored) },
            Event::Parts {
                parts: vec![
                    text("deleteImg", "1_a.png"),
                    image("new.jpg", vec![7, 7]),
                    text("description", "a new description"),
                    text("deleteImg", "1_c.png"),
                ],
            },
            Event::Exists { exists: true },
            Event::Removed { removed: true },
            Event::Exists { exists: true },
            Event::Removed { removed: false },
            Event::ImagesSaved { names: vec!["9_new.jpg".to_string()] },
        ],
    );
    assert_eq!(
        effects,
        vec![
            Effect::FindPost { id: 5 },
            Effect::ReadParts,
            Effect::FileExists { directory: Directory::Posts, name: "1_a.png".to_string() },
            Effect::RemoveFile { directory: Directory::Posts, name: "1_a.png".to_string() },
            Effect::FileExists { directory: Directory::Posts, name: "1_c.png".to_string() },
            Effect::RemoveFile { directory: Directory::Posts, name: "1_c.png".to_string() },
            Effect::SaveImages { uploads: vec![Upload { bytes: vec![7, 7], filename: "new.jpg".to_string() }] },
            Effect::UpdatePost {
                id: 5,
                changes: PostChanges {
                    name: None,
                    description: Some("a new description".to_string()),
                    imgs: Some(vec![None, Some("1_b.png".to_string()), Some("9_new.jpg".to_string())]),
                },
            },
        ]
    );
}

#[test]
fn a_deletion_alone_writes_the_shorter_list() {
    let effects = run(
        Some(&claims(1)),
        vec![
            Event::Post { post: Some(post(1, vec![Some("1_a.png"), Some("1_b.png")])) },
            Event::Parts { parts: vec![text("deleteImg", "1_b.png")] },
            Event::Exists { exists: true },
            Event::Removed { removed: true },
        ],
    );
    assert_eq!(
        effects[4],
        Effect::UpdatePost {
            id: 5,
            changes: PostChanges { name: None, description: None, imgs: Some(vec![Some("1_a.png".to_string())]) },
        }
    );
}

#[test]
fn a_missing_file_fails_the_whole_update() {
    let effects = run(
        Some(&claims(1)),
        vec![
            Event::Post { post: Some(post(1, vec![Some("1_a.png"), Some("1_b.png")])) },
            Event::Parts {
                parts: vec![text("deleteImg", "1_a.png"), text("deleteImg", "gone.png"), text("name", "fine")],
            },
            Event::Exists { exists: true },
            Event::Removed { removed: true },
            Event::Exists { exists: false },
            Event::PostWritten { post: post(1, vec![]) },
        ],
    );
    assert_eq!(effects.len(), 6);
    assert_eq!(effects[5], refusal(Status::BadRequest, "File not found: gone.png"));
    assert!(!effects.iter().any(|effect| matches!(effect, Effect::UpdatePost { .. })));
    // The file that the first deletion removed stays removed.
    assert_eq!(effects[3], Effect::RemoveFile { directory: Directory::Posts, name: "1_a.png".to_string() });
}

#[test]
fn a_name_deleted_twice_is_missing_the_second_time() {
    let effects = run(
        Some(&claims(1)),
        vec![
            Event::Post { post: Some(post(1, vec![Some("1_a.png")])) },
            Event::Parts { parts: vec![text("deleteImg", "1_a.png"), text("deleteImg", "1_a.png")] },
            Event::Exists { exists: true },
            Event::Removed { removed: true },
            Event::Exists { exists: false },
        ],
    );
    assert_eq!(effects.last().unwrap(), &refusal(Status::BadRequest, "File not found: 1_a.png"));
}

#[test]
fn a_refused_image_stops_before_any_deletion() {
    let effects = run(
        Some(&claims(1)),
        vec![
            Event::Post { post: Some(post(1, vec![Some("1_a.png")])) },
            Event::Parts { parts: vec![text("deleteImg", "1_a.png"), image("notes.txt", vec![1])] },
            Event::Exists { exists: true },
        ],
    );
    assert_eq!(
        effects,
        vec![
            Effect::FindPost { id: 5 },
            Effect::ReadParts,
            refusal(Status::BadRequest, "Image type must be jpeg, jpg,webp or png "),
        ]
    );
}

#[test]
fn an_image_over_the_limit_is_refused() {
    let effects = run(
        Some(&claims(1)),
        vec![
            Event::Post { post: Some(post(1, vec![])) },
            Event::Parts { parts: vec![image("big.png", vec![0u8; 3 * 1024 * 1024 + 1])] },
        ],
    );
    assert_eq!(effects[2], refusal(Status::BadRequest, "File size should be less than 3MB"));
}

#[test]
fn texts_are_checked_before_anything_is_removed() {
    let effects = run(
        Some(&claims(1)),
        vec![
            Event::Post { post: Some(post(1, vec![Some("1_a.png")])) },
            Event::Parts { parts: vec![text("name", "x"), text("deleteImg", "1_a.png"), image("b.png", vec![1])] },
            Event::Exists { exists: true },
            Event::Removed { removed: true },
        ],
    );
    assert_eq!(
        effects,
        vec![
            Effect::FindPost { id: 5 },
            Effect::ReadParts,
            refusal(Status::BadRequest, "Name length must be between 2 and 100 characters"),
        ]
    );
    assert!(!effects.iter().any(writes));
}

#[test]
fn the_answer_shows_the_images_without_gaps() {
    let written = post(1, vec![None, Some("1_b.png"), None, Some("9_new.jpg")]);
    let effects = run(
        Some(&claims(1)),
        vec![
            Event::Post { post: Some(post(1, vec![None, Some("1_b.png"), None])) },
            Event::Parts { parts: vec![image("new.jpg", vec![7])] },
            Event::ImagesSaved { names: vec!["9_new.jpg".to_string()] },
            Event::PostWritten { post: written },
        ],
    );
    assert_eq!(
        effects[3],
        Effect::UpdatePost {
            id: 5,
            changes: PostChanges {
                name: None,
                description: None,
                imgs: Some(vec![None, Some("1_b.png".to_string()), None, Some("9_new.jpg".to_string())]),
            },
        }
    );
    match &effects[4] {
        Effect::Respond { reply: Reply { status: Status::Success, body: Body::Post { post, .. } } } => {
            assert_eq!(post.imgs, vec![Some("1_b.png".to_string()), Some("9_new.jpg".to_string())]);
        }
        other => panic!("{:?}", other),
    }
}

#[test]
fn a_description_out_of_bounds_is_refused() {
    let effects = run(
        Some(&claims(1)),
        vec![
            Event::Post { post: Some(post(1, vec![])) },
            Event::Parts { parts: vec![text("name", "fine"), text("description", "no")] },
        ],
    );
    assert_eq!(
        effects[2],
        refusal(Status::BadRequest, "Description length must be between 3 and 500 characters")
    );
}

#[test]
fn a_failed_save_is_a_server_error() {
    let effects = run(
        Some(&claims(1)),
        vec![
            Event::Post { post: Some(post(1, vec![])) },
            Event::Parts { parts: vec![image("b.png", vec![1])] },
            Event::SaveFailed { error: "Failed to write image data".to_string() },
        ],
    );
    assert_eq!(effects[3], refusal(Status::InternalServerError, "Failed to write image data"));
}

#[test]
fn a_failed_write_is_a_server_error() {
    let effects = run(
        Some(&claims(1)),
        vec![
            Event::Post { post: Some(post(1, vec![])) },
            Event::Parts { parts: vec![text("name", "fine")] },
            Event::StoreError { error: "connection lost".to_string() },
        ],
    );
    assert_eq!(
        effects[3],
        Effect::Respond {
            reply: Reply {
                status: Status::InternalServerError,
                body: Body::Failure {
                    message: "Failed to update post".to_string(),
                    error: "connection lost".to_string(),
                },
            },
        }
    );
}

#[test]
fn an_event_that_is_no_answer_has_no_step() {
    let (state, _) = PostUpdate::start(Some(&claims(1)), 5);
    assert_eq!(update_post(state.clone(), Event::Exists { exists: true }), None);
    assert_eq!(update_post(state, Event::Parts { parts: vec![] }), None);
    assert_eq!(update_post(PostUpdate::Finished, Event::Post { post: None }), None);
    assert_eq!(update_post(PostUpdate::Persisting, Event::Exists { exists: false }), None);
}

#[test]
fn nothing_is_written_unless_the_owner_is_confirmed() {
    let scripts: Vec<Vec<Event>> = vec![
        vec![Event::Post { post: None }, Event::Removed { removed: true }],
        vec![Event::Post { post: Some(post(9, vec![Some("x.png")])) }, Event::Parts { parts: vec![image("a.png", vec![1])] }],
        vec![Event::StoreError { error: "e".to_string() }, Event::ImagesSaved { names: vec![] }],
        vec![Event::Parts { parts: vec![text("deleteImg", "x.png")] }, Event::Exists { exists: true }],
    ];
    for script in scripts {
        assert!(!run(Some(&claims(1)), script.clone()).iter().any(writes));
        assert!(!run(None, script).iter().any(writes));
    }
}
