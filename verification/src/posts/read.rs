//! Reading posts: one post by its id, and a page of all posts, newest
//! first, each with the display fields of its owner.

use vstd::prelude::*;
use crate::flow::{respond, Effect, EffectView, Event, EventView};
use crate::models::{list_rows, listed_post_views, listed_rows, PostData, PostView, PostWithUser, PostWithUserView};
use crate::paging::{parameter, parameter_text, Paging};
use crate::reply::{failed, refused, Body, BodyView, Reply, ReplyView, Status};

verus! {

/// Where the reading of one post stands.
#[derive(Debug, Clone, Copy, PartialEq, Eq, Structural)]
pub enum PostLookup {
    /// The post was asked for.
    AwaitingPost,
    /// The request was answered.
    Finished,
}

/// The answer that shows one post.
pub open spec fn shown(post: PostView) -> ReplyView {
    ReplyView { status: Status::Success, body: BodyView::Post { message: None, post } }
}

/// The step that `event` causes in the reading of one post; `None` where
/// `event` does not answer what `state` waits for.
pub open spec fn get_post_by_id_model(state: PostLookup, event: EventView) -> Option<(PostLookup, EffectView)> {
    match state {
        PostLookup::AwaitingPost => match event {
            EventView::Post { post: Some(post) } => Some((PostLookup::Finished, respond(shown(post)))),
            EventView::Post { post: None } => Some(
                (PostLookup::Finished, respond(refused(Status::NotFound, "Post not found"@))),
            ),
            EventView::StoreError { error } => Some(
                (PostLookup::Finished, respond(failed(Status::InternalServerError, "Database error"@, error))),
            ),
            _ => None,
        },
        PostLookup::Finished => None,
    }
}

/// A step of the reading of one post, as contracts see it.
pub open spec fn lookup_view(step: Option<(PostLookup, Effect)>) -> Option<(PostLookup, EffectView)> {
    match step {
        Some((state, effect)) => Some((state, effect@)),
        None => None,
    }
}

impl PostLookup {
    /// Begins the reading of the post `id`.
    pub fn start(id: i32) -> (step: (PostLookup, Effect))
        ensures
            step.0 == PostLookup::AwaitingPost,
            step.1@ == (EffectView::FindPost { id }),
    {
        (PostLookup::AwaitingPost, Effect::FindPost { id })
    }
}

/// Answers the reading of one post: the post with every field as stored,
/// or that there is none, or that the store failed.
pub fn get_post_by_id(state: PostLookup, event: Event) -> (step: Option<(PostLookup, Effect)>)
    ensures
        lookup_view(step) == get_post_by_id_model(state, event@),
{
    match state {
        PostLookup::AwaitingPost => match event {
            Event::Post { post: Some(post) } => Some(
                (
                    PostLookup::Finished,
                    Effect::Respond {
                        reply: Reply {
                            status: Status::Success,
                            body: Body::Post { message: None, post: PostData::of(post) },
                        },
                    },
                ),
            ),
            Event::Post { post: None } => Some(
                (PostLookup::Finished, Effect::Respond { reply: Reply::refuse(Status::NotFound, "Post not found") }),
            ),
            Event::StoreError { error } => Some(
                (
                    PostLookup::Finished,
                    Effect::Respond { reply: Reply::fail(Status::InternalServerError, "Database error", error) },
                ),
            ),
            _ => None,
        },
        PostLookup::Finished => None,
    }
}

/// Where a listing of posts stands.
#[derive(Debug, Clone, PartialEq, Eq)]
pub enum PostListing {
    /// The page of rows was asked for.
    AwaitingRows,
    /// The number of all posts was asked for.
    AwaitingCount { posts: Vec<PostWithUser> },
    /// The request was answered.
    Finished,
}

/// The state of a listing of posts, as contracts see it.
pub ghost enum PostListingView {
    AwaitingRows,
    AwaitingCount { posts: Seq<PostWithUserView> },
    Finished,
}

impl View for PostListing {
    type V = PostListingView;

    open spec fn view(&self) -> PostListingView {
        match *self {
            PostListing::AwaitingRows => PostListingView::AwaitingRows,
            PostListing::AwaitingCount { posts } => PostListingView::AwaitingCount {
                posts: listed_post_views(posts@),
            },
            PostListing::Finished => PostListingView::Finished,
        }
    }
}

/// A step of a listing, as contracts see it.
pub open spec fn step_view(step: Option<(PostListing, Effect)>) -> Option<(PostListingView, EffectView)> {
    match step {
        Some((state, effect)) => Some((state@, effect@)),
        None => None,
    }
}

/// The answer that shows a page of posts and the number of all posts.
pub open spec fn page_of_posts(posts: Seq<PostWithUserView>, total_post: i64) -> ReplyView {
    ReplyView { status: Status::Success, body: BodyView::Posts { posts, total_post } }
}

/// How a listing begins: the page that `paging` names is asked for. A
/// page so far out that the records before it cannot be counted in 64 bits
/// cannot be asked for.
pub open spec fn start_model(paging: Paging) -> Option<(PostListingView, EffectView)> {
    if i64::MIN <= paging.skipped() <= i64::MAX {
        Some(
            (
                PostListingView::AwaitingRows,
                EffectView::ListPosts { limit: paging.limit, offset: paging.skipped() as i64 },
            ),
        )
    } else {
        None
    }
}

/// The step that `event` causes in `state`; `None` where `event` does not
/// answer what `state` waits for. A page that the store cannot read is
/// shown as empty, and a count that it cannot make as zero.
pub open spec fn get_all_posts_model(state: PostListingView, event: EventView) -> Option<
    (PostListingView, EffectView),
> {
    match state {
        PostListingView::AwaitingRows => match event {
            EventView::PostRows { rows } => Some(
                (PostListingView::AwaitingCount { posts: listed_rows(rows) }, EffectView::CountPosts),
            ),
            EventView::StoreError { error } => Some(
                (PostListingView::AwaitingCount { posts: Seq::empty() }, EffectView::CountPosts),
            ),
            _ => None,
        },
        PostListingView::AwaitingCount { posts } => match event {
            EventView::Count { total } => Some((PostListingView::Finished, respond(page_of_posts(posts, total)))),
            EventView::StoreError { error } => Some((PostListingView::Finished, respond(page_of_posts(posts, 0)))),
            _ => None,
        },
        PostListingView::Finished => None,
    }
}

/// Ends a listing with its page and the total.
fn page_reply(posts: Vec<PostWithUser>, total_post: i64) -> (step: (PostListing, Effect))
    ensures
        (step.0@, step.1@) == (PostListingView::Finished, respond(page_of_posts(listed_post_views(posts@), total_post))),
{
    (
        PostListing::Finished,
        Effect::Respond { reply: Reply { status: Status::Success, body: Body::Posts { posts, total_post } } },
    )
}

impl PostListing {
    /// Begins a listing of the page that the query parameters `page` and
    /// `limit` name: page 1 and 3 records where they name none.
    pub fn start(page: Option<&str>, limit: Option<&str>) -> (step: Option<(PostListing, Effect)>)
        ensures
            step_view(step) == start_model(
                Paging::of(parameter(parameter_text(page)), parameter(parameter_text(limit))),
            ),
    {
        let paging = Paging::from_query(page, limit);
        match paging.offset() {
            None => None,
            Some(offset) => Some((PostListing::AwaitingRows, Effect::ListPosts { limit: paging.limit, offset })),
        }
    }
}

/// Takes a listing of posts one step further: the rows of the page are
/// shaped, each with its images without the empty slots, then the number
/// of all posts is asked for, and both are shown. The result is `None`
/// where `event` is no answer to what `state` waits for.
pub fn get_all_posts(state: PostListing, event: Event) -> (step: Option<(PostListing, Effect)>)
    ensures
        step_view(step) == get_all_posts_model(state@, event@),
{
    match state {
        PostListing::AwaitingRows => match event {
            Event::PostRows { rows } => Some((PostListing::AwaitingCount { posts: list_rows(rows) }, Effect::CountPosts)),
            Event::StoreError { error } => {
                let posts: Vec<PostWithUser> = Vec::new();
                assert(listed_post_views(posts@) =~= Seq::empty());
                Some((PostListing::AwaitingCount { posts }, Effect::CountPosts))
            },
            _ => None,
        },
        PostListing::AwaitingCount { posts } => match event {
            Event::Count { total } => Some(page_reply(posts, total)),
            Event::StoreError { error } => Some(page_reply(posts, 0)),
            _ => None,
        },
        PostListing::Finished => None,
    }
}

/// The total that a listing shows is the number that the store counted,
/// whatever page was asked for and whatever rows it held.
pub proof fn total_is_the_count(posts: Seq<PostWithUserView>, total: i64)
    ensures
        get_all_posts_model(PostListingView::AwaitingCount { posts }, EventView::Count { total }) == Some(
            (PostListingView::Finished, respond(page_of_posts(posts, total))),
        ),
{
}

} // verus!
