use content_backend::flow::{Effect, Event};
use content_backend::models::{present_names, Post, PostData, PostRow, PostWithUser};
use content_backend::posts::read::{get_all_posts, get_post_by_id, PostListing, PostLookup};
use content_backend::reply::{Body, Reply, Status};

fn row(id: i32, imgs: Vec<Option<&str>>) -> PostRow {
    PostRow {
        id,
        userid: 4,
        firstname: "Ann".to_string(),
        lastname: "Lee".to_string(),
        email: "ann@example.org".to_string(),
        profile: "1_me.png".to_string(),
        name: format!("post {}", id),
        imgs: imgs.into_iter().map(|slot| slot.map(str::to_string)).collect(),
        description: "text".to_string(),
        created_at: chrono::DateTime::from_timestamp(1700000000 + id as i64, 0).map(|at| at.naive_utc()),
    }
}

fn listed(id: i32, imgs: Vec<&str>) -> PostWithUser {
    PostWithUser {
        id,
        user_id: 4,
        firstname: "Ann".to_string(),
        lastname: "Lee".to_string(),
        email: "ann@example.org".to_string(),
        profile: "1_me.png".to_string(),
        name: format!("post {}", id),
        imgs: imgs.into_iter().map(str::to_string).collect(),
        description: "text".to_string(),
        created_at: chrono::DateTime::from_timestamp(1700000000 + id as i64, 0).map(|at| at.naive_utc()),
    }
}

#[test]
fn a_post_is_shown_as_stored() {
    let stored = Post {
        id: 2,
        userid: 9,
        name: "n".to_string(),
        description: "d".to_string(),
        imgs: vec![Some("a.png".to_string()), None],
        created_at: None,
    };
    let (state, effect) = PostLookup::start(2);
    assert_eq!((state, effect), (PostLookup::AwaitingPost, Effect::FindPost { id: 2 }));
    assert_eq!(
        get_post_by_id(state, Event::Post { post: Some(stored) }),
        Some((
            PostLookup::Finished,
            Effect::Respond {
                reply: Reply {
                    status: Status::Success,
                    body: Body::Post {
                        message: None,
                        post: PostData {
                            id: 2,
                            userid: 9,
                            name: "n".to_string(),
                            description: "d".to_string(),
                            imgs: vec![Some("a.png".to_string()), None],
                            created_at: None,
                        },
                    },
                },
            }
        ))
    );
}

#[test]
fn a_post_that_is_not_there_is_not_found() {
    assert_eq!(
        get_post_by_id(PostLookup::AwaitingPost, Event::Post { post: None }),
        Some((
            PostLookup::Finished,
            Effect::Respond {
                reply: Reply {
                    status: Status::NotFound,
                    body: Body::Message { success: false, message: "Post not found".to_string() },
                },
            }
        ))
    );
    assert_eq!(
        get_post_by_id(PostLookup::AwaitingPost, Event::StoreError { error: "down".to_string() }),
        Some((
            PostLookup::Finished,
            Effect::Respond {
                reply: Reply {
                    status: Status::InternalServerError,
                    body: Body::Failure { message: "Database error".to_string(), error: "down".to_string() },
                },
            }
        ))
    );
    assert_eq!(get_post_by_id(PostLookup::AwaitingPost, Event::Count { total: 1 }), None);
    assert_eq!(get_post_by_id(PostLookup::Finished, Event::Post { post: None }), None);
}

#[test]
fn the_second_page_of_three_asks_for_records_four_to_six() {
    let (state, effect) = PostListing::start(Some("2"), Some("3")).unwrap();
    assert_eq!(state, PostListing::AwaitingRows);
    assert_eq!(effect, Effect::ListPosts { limit: 3, offset: 3 });
    // Seven posts, newest first; the store hands over the fourth to the sixth.
    let newest_first: Vec<PostRow> = (1..=7).rev().map(|id| row(id, vec![Some("a.png")])).collect();
    let page: Vec<PostRow> = newest_first.iter().skip(3).take(3).cloned().collect();
    let (state, effect) = get_all_posts(state, Event::PostRows { rows: page }).unwrap();
    assert_eq!(effect, Effect::CountPosts);
    let (state, effect) = get_all_posts(state, Event::Count { total: 7 }).unwrap();
    assert_eq!(state, PostListing::Finished);
    assert_eq!(
        effect,
        Effect::Respond {
            reply: Reply {
                status: Status::Success,
                body: Body::Posts {
                    posts: vec![listed(4, vec!["a.png"]), listed(3, vec!["a.png"]), listed(2, vec!["a.png"])],
                    total_post: 7,
                },
            },
        }
    );
}

#[test]
fn the_total_does_not_depend_on_the_page() {
    for (page, limit) in [(None, None), (Some("1"), Some("1")), (Some("50"), Some("2")), (Some("x"), Some("0"))] {
        let (state, _) = PostListing::start(page, limit).unwrap();
        let (state, _) = get_all_posts(state, Event::PostRows { rows: vec![] }).unwrap();
        let (_, effect) = get_all_posts(state, Event::Count { total: 7 }).unwrap();
        assert_eq!(
            effect,
            Effect::Respond {
                reply: Reply { status: Status::Success, body: Body::Posts { posts: vec![], total_post: 7 } },
            }
        );
    }
}

#[test]
fn a_listing_defaults_to_the_first_three() {
    assert_eq!(PostListing::start(None, None).unwrap().1, Effect::ListPosts { limit: 3, offset: 0 });
    assert_eq!(PostListing::start(Some("abc"), Some("10")).unwrap().1, Effect::ListPosts { limit: 10, offset: 0 });
    assert_eq!(PostListing::start(Some("9223372036854775807"), Some("2")), None);
}

#[test]
fn listed_images_have_no_empty_slots() {
    let (state, _) = PostListing::start(None, None).unwrap();
    let rows = vec![row(1, vec![None, Some("a.png"), None, Some("b.png")]), row(2, vec![None]), row(3, vec![])];
    let (state, _) = get_all_posts(state, Event::PostRows { rows }).unwrap();
    assert_eq!(
        state,
        PostListing::AwaitingCount {
            posts: vec![listed(1, vec!["a.png", "b.png"]), listed(2, vec![]), listed(3, vec![])],
        }
    );
    assert_eq!(
        present_names(vec![Some("x".to_string()), None, Some("y".to_string())]),
        vec!["x".to_string(), "y".to_string()]
    );
}

#[test]
fn a_store_that_fails_shows_nothing() {
    let (state, _) = PostListing::start(None, None).unwrap();
    let (state, effect) = get_all_posts(state, Event::StoreError { error: "down".to_string() }).unwrap();
    assert_eq!((state.clone(), effect), (PostListing::AwaitingCount { posts: vec![] }, Effect::CountPosts));
    let (_, effect) = get_all_posts(state, Event::StoreError { error: "down".to_string() }).unwrap();
    assert_eq!(
        effect,
        Effect::Respond { reply: Reply { status: Status::Success, body: Body::Posts { posts: vec![], total_post: 0 } } }
    );
    assert_eq!(get_all_posts(PostListing::AwaitingRows, Event::Count { total: 1 }), None);
    assert_eq!(get_all_posts(PostListing::Finished, Event::Count { total: 1 }), None);
}
