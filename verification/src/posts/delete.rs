//! The deletion of a post: the owner deletes a post and its images. The
//! pipeline resolves the post, checks the owner, removes each image that
//! is on disk, and deletes the row. Only the row decides whether the
//! deletion succeeded; an image that cannot be removed does not stop it.

use vstd::prelude::*;
use crate::flow::{respond, Effect, EffectView, Event, EventView};
use crate::media::Directory;
use crate::models::{present, present_names, texts, Claims};
use crate::reply::{failed, refused, succeeded, Reply, ReplyView, Status};

verus! {

/// Where a deletion stands.
#[derive(Debug, Clone, PartialEq, Eq)]
pub enum PostDeletion {
    /// The post was asked for; `owner` is the caller's id.
    AwaitingPost { owner: i64, post_id: i32 },
    /// It was asked whether the image number `next` is on disk.
    CheckingFile { post_id: i32, images: Vec<String>, next: usize },
    /// The removal of the image number `next` was asked for.
    RemovingFile { post_id: i32, images: Vec<String>, next: usize },
    /// The deletion of the row was asked for.
    Deleting,
    /// The request was answered.
    Finished,
}

/// The state of a deletion, as contracts see it.
pub ghost enum PostDeletionView {
    AwaitingPost { owner: i64, post_id: i32 },
    CheckingFile { post_id: i32, images: Seq<Seq<char>>, next: nat },
    RemovingFile { post_id: i32, images: Seq<Seq<char>>, next: nat },
    Deleting,
    Finished,
}

impl View for PostDeletion {
    type V = PostDeletionView;

    open spec fn view(&self) -> PostDeletionView {
        match *self {
            PostDeletion::AwaitingPost { owner, post_id } => PostDeletionView::AwaitingPost { owner, post_id },
            PostDeletion::CheckingFile { post_id, images, next } => PostDeletionView::CheckingFile {
                post_id,
                images: texts(images@),
                next: next as nat,
            },
            PostDeletion::RemovingFile { post_id, images, next } => PostDeletionView::RemovingFile {
                post_id,
                images: texts(images@),
                next: next as nat,
            },
            PostDeletion::Deleting => PostDeletionView::Deleting,
            PostDeletion::Finished => PostDeletionView::Finished,
        }
    }
}

/// A step of the pipeline, as contracts see it.
pub open spec fn step_view(step: Option<(PostDeletion, Effect)>) -> Option<(PostDeletionView, EffectView)> {
    match step {
        Some((state, effect)) => Some((state@, effect@)),
        None => None,
    }
}

/// The step that answers the request and ends the pipeline.
pub open spec fn finish(reply: ReplyView) -> (PostDeletionView, EffectView) {
    (PostDeletionView::Finished, respond(reply))
}

/// How a deletion begins: without claims it is refused; with them the post
/// is asked for.
pub open spec fn start_model(owner: Option<i64>, post_id: i32) -> (PostDeletionView, EffectView) {
    match owner {
        None => finish(refused(Status::Unauthorized, "Unauthorized: No valid token found"@)),
        Some(id) => (PostDeletionView::AwaitingPost { owner: id, post_id }, EffectView::FindPost { id: post_id }),
    }
}

/// What follows once the images before `next` are handled: the next image,
/// or the deletion of the row.
pub open spec fn next_removal(post_id: i32, images: Seq<Seq<char>>, next: nat) -> (PostDeletionView, EffectView) {
    if next < images.len() {
        (
            PostDeletionView::CheckingFile { post_id, images, next },
            EffectView::FileExists { directory: Directory::Posts, name: images[next as int] },
        )
    } else {
        (PostDeletionView::Deleting, EffectView::DeletePost { id: post_id })
    }
}

/// The step that `event` causes in `state`; `None` where `event` does not
/// answer what `state` waits for.
pub open spec fn delete_post_model(state: PostDeletionView, event: EventView) -> Option<
    (PostDeletionView, EffectView),
> {
    match state {
        PostDeletionView::AwaitingPost { owner, post_id } => match event {
            EventView::Post { post: None } => Some(finish(refused(Status::NotFound, "Post not found"@))),
            EventView::StoreError { error } => Some(
                finish(failed(Status::InternalServerError, "Database error"@, error)),
            ),
            EventView::Post { post: Some(post) } => if post.userid != owner {
                Some(finish(refused(Status::Forbidden, "You can only delete your own posts"@)))
            } else {
                Some(next_removal(post_id, present(post.imgs), 0))
            },
            _ => None,
        },
        PostDeletionView::CheckingFile { post_id, images, next } => match event {
            EventView::Exists { exists } => if next >= images.len() {
                None
            } else if exists {
                Some(
                    (
                        PostDeletionView::RemovingFile { post_id, images, next },
                        EffectView::RemoveFile { directory: Directory::Posts, name: images[next as int] },
                    ),
                )
            } else {
                Some(next_removal(post_id, images, next + 1))
            },
            _ => None,
        },
        PostDeletionView::RemovingFile { post_id, images, next } => match event {
            EventView::Removed { removed } => if next >= images.len() {
                None
            } else {
                Some(next_removal(post_id, images, next + 1))
            },
            _ => None,
        },
        PostDeletionView::Deleting => match event {
            EventView::Written { rows } => if rows > 0 {
                Some(finish(succeeded(Status::Success, "Post deleted successfully"@)))
            } else {
                Some(finish(refused(Status::BadRequest, "Cannot delete the post"@)))
            },
            EventView::StoreError { error } => Some(
                finish(failed(Status::InternalServerError, "Database error"@, error)),
            ),
            _ => None,
        },
        PostDeletionView::Finished => None,
    }
}

/// Ends the pipeline with `reply`.
fn finished(reply: Reply) -> (step: (PostDeletion, Effect))
    ensures
        (step.0@, step.1@) == finish(reply@),
{
    (PostDeletion::Finished, Effect::Respond { reply })
}

/// Goes on to the image number `next`, or to the row.
fn continue_removals(post_id: i32, images: Vec<String>, next: usize) -> (step: (PostDeletion, Effect))
    ensures
        (step.0@, step.1@) == next_removal(post_id, texts(images@), next as nat),
{
    if next < images.len() {
        let name = images[next].clone();
        proof {
            assert(texts(images@)[next as int] == name@);
        }
        (PostDeletion::CheckingFile { post_id, images, next }, Effect::FileExists { directory: Directory::Posts, name })
    } else {
        (PostDeletion::Deleting, Effect::DeletePost { id: post_id })
    }
}

impl PostDeletion {
    /// Begins the deletion of the post `post_id` for the caller that
    /// `claims` identifies. Without claims the request is refused at once.
    pub fn start(claims: Option<&Claims>, post_id: i32) -> (step: (PostDeletion, Effect))
        ensures
            (step.0@, step.1@) == start_model(
                match claims {
                    Some(c) => Some(c.id),
                    None => None,
                },
                post_id,
            ),
    {
        match claims {
            None => finished(Reply::refuse(Status::Unauthorized, "Unauthorized: No valid token found")),
            Some(c) => (PostDeletion::AwaitingPost { owner: c.id, post_id }, Effect::FindPost { id: post_id }),
        }
    }
}

/// Takes a deletion one step further: from where it stands and the answer
/// to what it last asked for, to where it stands next and what it asks for
/// now. The result is `None` where `event` is no answer to what `state`
/// waits for.
pub fn delete_post(state: PostDeletion, event: Event) -> (step: Option<(PostDeletion, Effect)>)
    ensures
        step_view(step) == delete_post_model(state@, event@),
{
    match state {
        PostDeletion::AwaitingPost { owner, post_id } => match event {
            Event::Post { post: None } => Some(finished(Reply::refuse(Status::NotFound, "Post not found"))),
            Event::StoreError { error } => Some(
                finished(Reply::fail(Status::InternalServerError, "Database error", error)),
            ),
            Event::Post { post: Some(post) } => {
                if post.userid != owner {
                    Some(finished(Reply::refuse(Status::Forbidden, "You can only delete your own posts")))
                } else {
                    Some(continue_removals(post_id, present_names(post.imgs), 0))
                }
            },
            _ => None,
        },
        PostDeletion::CheckingFile { post_id, images, next } => match event {
            Event::Exists { exists } => {
                if next >= images.len() {
                    None
                } else if exists {
                    let name = images[next].clone();
                    proof {
                        assert(texts(images@)[next as int] == name@);
                    }
                    Some(
                        (
                            PostDeletion::RemovingFile { post_id, images, next },
                            Effect::RemoveFile { directory: Directory::Posts, name },
                        ),
                    )
                } else {
                    Some(continue_removals(post_id, images, next + 1))
                }
            },
            _ => None,
        },
        PostDeletion::RemovingFile { post_id, images, next } => match event {
            Event::Removed { removed } => {
                if next >= images.len() {
                    None
                } else {
                    Some(continue_removals(post_id, images, next + 1))
                }
            },
            _ => None,
        },
        PostDeletion::Deleting => match event {
            Event::Written { rows } => {
                if rows > 0 {
                    Some(finished(Reply::succeed(Status::Success, "Post deleted successfully")))
                } else {
                    Some(finished(Reply::refuse(Status::BadRequest, "Cannot delete the post")))
                }
            },
            Event::StoreError { error } => Some(
                finished(Reply::fail(Status::InternalServerError, "Database error", error)),
            ),
            _ => None,
        },
        PostDeletion::Finished => None,
    }
}

/// The effects that a deletion in `state` asks for as `events` arrive: one
/// for each event, up to the first event that is no answer.
pub open spec fn effects_from(state: PostDeletionView, events: Seq<EventView>) -> Seq<EffectView>
    decreases events.len(),
{
    if events.len() == 0 {
        Seq::empty()
    } else {
        match delete_post_model(state, events[0]) {
            None => Seq::empty(),
            Some((next, effect)) => seq![effect] + effects_from(next, events.drop_first()),
        }
    }
}

/// Every effect of a deletion of the post `post_id` by the caller `owner`
/// to which `events` are handed, the first effect included.
pub open spec fn deletion_effects(owner: Option<i64>, post_id: i32, events: Seq<EventView>) -> Seq<EffectView> {
    seq![start_model(owner, post_id).1] + effects_from(start_model(owner, post_id).0, events)
}

/// Only the owner deletes: unless the caller is identified and the first
/// answer is a post that the caller owns, a deletion removes no file and
/// deletes no row, whatever else it is told.
pub proof fn no_removal_without_ownership(owner: Option<i64>, post_id: i32, events: Seq<EventView>)
    requires
        !crate::posts::update::owner_confirmed(owner, events),
    ensures
        forall|i: int|
            0 <= i < deletion_effects(owner, post_id, events).len() ==> !(#[trigger] deletion_effects(
                owner,
                post_id,
                events,
            )[i]).writes(),
{
    if owner is None {
        finished_is_silent(events);
    } else if events.len() > 0 {
        finished_is_silent(events.drop_first());
    }
}

/// A finished deletion asks for nothing more.
proof fn finished_is_silent(events: Seq<EventView>)
    ensures
        effects_from(PostDeletionView::Finished, events).len() == 0,
{
}

} // verus!
