use content_backend::flow::{Effect, Event};
use content_backend::media::Upload;
use content_backend::models::{Claims, NewPost, Post, PostData};
use content_backend::multipart::Part;
use content_backend::posts::read::{get_post_by_id, PostLookup};
use content_backend::posts::upload::{upload_post, PostUpload};
use content_backend::reply::{Body, Reply, Status};

fn claims(id: i64) -> Claims {
    Claims { id, email: "a@b.io".to_string(), firstname: "Ann".to_string(), lastname: "Lee".to_string(), exp: 0 }
}

fn text(name: &str, value: &str) -> Part {
    Part { name: name.to_string(), filename: None, data: value.as_bytes().to_vec() }
}

fn image(filename: Option<&str>, data: Vec<u8>) -> Part {
    Part { name: "postImgs".to_string(), filename: filename.map(str::to_string), data }
}

fn refusal(status: Status, message: &str) -> Effect {
    Effect::Respond { reply: Reply { status, body: Body::Message { success: false, message: message.to_string() } } }
}

fn run(claims: Option<&Claims>, events: Vec<Event>) -> Vec<Effect> {
    let (mut state, first) = PostUpload::start(claims);
    let mut effects = vec![first];
    for event in events {
        match upload_post(state, event) {
            Some((next, effect)) => {
                state = next;
                effects.push(effect);
            }
            None => break,
        }
    }
    effects
}

fn form() -> Vec<Part> {
    vec![
        text("name", "Two cats"),
        image(Some("one.png"), vec![1]),
        text("description", "Both asleep"),
        image(Some("two.JPEG"), vec![2, 2]),
    ]
}

#[test]
fn an_upload_without_claims_is_unauthorized() {
    assert_eq!(
        run(None, vec![Event::Parts { parts: form() }]),
        vec![refusal(Status::Unauthorized, "Unauthorized: No valid token found")]
    );
}

#[test]
fn an_upload_stores_its_images_then_the_post() {
    let stored = Post {
        id: 11,
        userid: 3,
        name: "Two cats".to_string(),
        description: "Both asleep".to_string(),
        imgs: vec![Some("10_one.png".to_string()), Some("10_two.JPEG".to_string())],
        created_at: chrono::DateTime::from_timestamp(1700000000, 0).map(|at| at.naive_utc()),
    };
    let effects = run(
        Some(&claims(3)),
        vec![
            Event::Parts { parts: form() },
            Event::ImagesSaved { names: vec!["10_one.png".to_string(), "10_two.JPEG".to_string()] },
            Event::PostWritten { post: stored.clone() },
        ],
    );
    assert_eq!(
        effects,
        vec![
            Effect::ReadParts,
            Effect::SaveImages {
                uploads: vec![
                    Upload { bytes: vec![1], filename: "one.png".to_string() },
                    Upload { bytes: vec![2, 2], filename: "two.JPEG".to_string() },
                ],
            },
            Effect::InsertPost {
                post: NewPost {
                    userid: 3,
                    name: "Two cats".to_string(),
                    description: "Both asleep".to_string(),
                    imgs: vec![Some("10_one.png".to_string()), Some("10_two.JPEG".to_string())],
                },
            },
            Effect::Respond {
                reply: Reply {
                    status: Status::Created,
                    body: Body::Post {
                        message: Some("User post uploaded successfully".to_string()),
                        post: PostData {
                            id: 11,
                            userid: 3,
                            name: stored.name.clone(),
                            description: stored.description.clone(),
                            imgs: stored.imgs.clone(),
                            created_at: stored.created_at,
                        },
                    },
                },
            },
        ]
    );
}

#[test]
fn two_uploaded_images_are_read_back_without_gaps() {
    let effects = run(
        Some(&claims(3)),
        vec![
            Event::Parts { parts: form() },
            Event::ImagesSaved { names: vec!["10_one.png".to_string(), "10_two.JPEG".to_string()] },
        ],
    );
    let inserted = match &effects[2] {
        Effect::InsertPost { post } => post.clone(),
        other => panic!("{:?}", other),
    };
    // The store keeps what it was given; the post is then read by its id.
    let stored = Post {
        id: 1,
        userid: inserted.userid,
        name: inserted.name,
        description: inserted.description,
        imgs: inserted.imgs,
        created_at: None,
    };
    let (state, asked) = PostLookup::start(1);
    assert_eq!(asked, Effect::FindPost { id: 1 });
    let (_, shown) = get_post_by_id(state, Event::Post { post: Some(stored) }).unwrap();
    match shown {
        Effect::Respond { reply: Reply { status: Status::Success, body: Body::Post { message: None, post } } } => {
            assert_eq!(post.imgs, vec![Some("10_one.png".to_string()), Some("10_two.JPEG".to_string())]);
            assert!(post.imgs.iter().all(|slot| slot.is_some()));
        }
        other => panic!("{:?}", other),
    }
}

#[test]
fn name_and_description_are_not_trimmed() {
    let effects = run(
        Some(&claims(3)),
        vec![
            Event::Parts { parts: vec![text("name", " x "), text("description", "  d  "), image(Some("a.png"), vec![1])] },
            Event::ImagesSaved { names: vec!["1_a.png".to_string()] },
        ],
    );
    match &effects[2] {
        Effect::InsertPost { post } => {
            assert_eq!(post.name, " x ");
            assert_eq!(post.description, "  d  ");
        }
        other => panic!("{:?}", other),
    }
}

#[test]
fn the_first_failing_rule_answers() {
    let cases: Vec<(Vec<Part>, &str)> = vec![
        (vec![text("description", "fine"), image(Some("a.png"), vec![1])], "Name is required"),
        (
            vec![text("name", "x"), text("description", "fine"), image(Some("a.png"), vec![1])],
            "Name length must be between 2 and 100 characters",
        ),
        (vec![text("name", "fine"), image(Some("a.png"), vec![1])], "Description is required"),
        (
            vec![text("name", "fine"), text("description", "no"), image(Some("a.png"), vec![1])],
            "Description length must be between 3 and 500 characters",
        ),
        (vec![text("name", "fine"), text("description", "fine")], "At least one image is required"),
        (vec![image(Some("a.bmp"), vec![1])], "Image type must be jpeg, jpg,webp or png "),
        (
            vec![text("name", ""), image(Some("a.png"), vec![0u8; 3 * 1024 * 1024 + 1])],
            "File size should be less than 3MB",
        ),
    ];
    for (parts, message) in cases {
        assert_eq!(
            run(Some(&claims(3)), vec![Event::Parts { parts }]),
            vec![Effect::ReadParts, refusal(Status::BadRequest, message)]
        );
    }
}

#[test]
fn a_file_without_a_name_counts_as_a_jpg() {
    let effects = run(
        Some(&claims(3)),
        vec![Event::Parts { parts: vec![text("name", "fine"), text("description", "fine"), image(None, vec![1])] }],
    );
    assert_eq!(
        effects[1],
        Effect::SaveImages { uploads: vec![Upload { bytes: vec![1], filename: "unknown.jpg".to_string() }] }
    );
}

#[test]
fn failures_of_disk_and_store_are_server_errors() {
    let effects = run(
        Some(&claims(3)),
        vec![Event::Parts { parts: form() }, Event::SaveFailed { error: "Failed to create directory".to_string() }],
    );
    assert_eq!(effects[2], refusal(Status::InternalServerError, "Failed to create directory"));
    let effects = run(
        Some(&claims(3)),
        vec![
            Event::Parts { parts: form() },
            Event::ImagesSaved { names: vec!["1_one.png".to_string(), "1_two.JPEG".to_string()] },
            Event::StoreError { error: "no such table".to_string() },
        ],
    );
    assert_eq!(
        effects[3],
        Effect::Respond {
            reply: Reply {
                status: Status::InternalServerError,
                body: Body::Failure { message: "Failed to insert post".to_string(), error: "no such table".to_string() },
            },
        }
    );
}

#[test]
fn an_upload_takes_only_answers() {
    let (state, _) = PostUpload::start(Some(&claims(3)));
    assert_eq!(upload_post(state, Event::Count { total: 1 }), None);
    assert_eq!(upload_post(PostUpload::Finished, Event::Parts { parts: vec![] }), None);
    assert_eq!(upload_post(PostUpload::Persisting, Event::Written { rows: 1 }), None);
}
