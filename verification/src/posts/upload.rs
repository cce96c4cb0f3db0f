//! The upload of a post: an identified caller sends a name, a description
//! and at least one image. The pipeline reads the form, checks it, stores
//! the images and inserts the post under the caller's id.

use vstd::prelude::*;
use crate::flow::{respond, Effect, EffectView, Event, EventView};
use crate::media::{upload_views, Upload, UploadView};
use crate::models::{filled_slots, slots_of, texts, Claims, NewPost, NewPostView, PostData, PostView};
use crate::multipart::{field_text, field_uploads, field_value, take_uploads};
use crate::reply::{failed, refused, Body, BodyView, Reply, ReplyView, Status};
use crate::validation::{post_description_verdict, post_images_verdict, post_name_verdict, verdict, Validator};

verus! {

/// Where an upload stands.
#[derive(Debug, Clone, PartialEq, Eq)]
pub enum PostUpload {
    /// The form's parts were asked for; `owner` is the caller's id.
    AwaitingParts { owner: i64 },
    /// The images were handed over to be stored.
    SavingImages { owner: i64, name: String, description: String },
    /// The post was handed over to be inserted.
    Persisting,
    /// The request was answered.
    Finished,
}

/// The state of an upload, as contracts see it.
pub ghost enum PostUploadView {
    AwaitingParts { owner: i64 },
    SavingImages { owner: i64, name: Seq<char>, description: Seq<char> },
    Persisting,
    Finished,
}

impl View for PostUpload {
    type V = PostUploadView;

    open spec fn view(&self) -> PostUploadView {
        match *self {
            PostUpload::AwaitingParts { owner } => PostUploadView::AwaitingParts { owner },
            PostUpload::SavingImages { owner, name, description } => PostUploadView::SavingImages {
                owner,
                name: name@,
                description: description@,
            },
            PostUpload::Persisting => PostUploadView::Persisting,
            PostUpload::Finished => PostUploadView::Finished,
        }
    }
}

/// A step of the pipeline, as contracts see it.
pub open spec fn step_view(step: Option<(PostUpload, Effect)>) -> Option<(PostUploadView, EffectView)> {
    match step {
        Some((state, effect)) => Some((state@, effect@)),
        None => None,
    }
}

/// The step that answers the request and ends the pipeline.
pub open spec fn finish(reply: ReplyView) -> (PostUploadView, EffectView) {
    (PostUploadView::Finished, respond(reply))
}

/// The names that the client gave the uploads.
pub open spec fn names_of(uploads: Seq<UploadView>) -> Seq<Seq<char>> {
    uploads.map_values(|upload: UploadView| upload.filename)
}

/// The first refusal among the rules for the name, the description and the
/// set of images, in this order.
pub open spec fn form_verdict(
    name: Seq<char>,
    description: Seq<char>,
    uploads: Seq<UploadView>,
) -> Result<(), Seq<char>> {
    if post_name_verdict(name) is Err {
        post_name_verdict(name)
    } else if post_description_verdict(description) is Err {
        post_description_verdict(description)
    } else {
        post_images_verdict(names_of(uploads))
    }
}

/// The answer to an upload that was stored.
pub open spec fn uploaded(post: PostView) -> ReplyView {
    ReplyView {
        status: Status::Created,
        body: BodyView::Post { message: Some("User post uploaded successfully"@), post },
    }
}

/// How an upload begins: without claims it is refused; with them the form
/// is asked for.
pub open spec fn start_model(owner: Option<i64>) -> (PostUploadView, EffectView) {
    match owner {
        None => finish(refused(Status::Unauthorized, "Unauthorized: No valid token found"@)),
        Some(id) => (PostUploadView::AwaitingParts { owner: id }, EffectView::ReadParts),
    }
}

/// The step that `event` causes in `state`; `None` where `event` does not
/// answer what `state` waits for.
pub open spec fn upload_post_model(state: PostUploadView, event: EventView) -> Option<
    (PostUploadView, EffectView),
> {
    match state {
        PostUploadView::AwaitingParts { owner } => match event {
            EventView::Parts { parts } => match field_uploads(parts, "postImgs"@) {
                Err(refusal) => Some(finish(refused(Status::BadRequest, refusal))),
                Ok(uploads) => match form_verdict(
                    field_text(parts, "name"@),
                    field_text(parts, "description"@),
                    uploads,
                ) {
                    Err(refusal) => Some(finish(refused(Status::BadRequest, refusal))),
                    Ok(_) => Some(
                        (
                            PostUploadView::SavingImages {
                                owner,
                                name: field_text(parts, "name"@),
                                description: field_text(parts, "description"@),
                            },
                            EffectView::SaveImages { uploads },
                        ),
                    ),
                },
            },
            _ => None,
        },
        PostUploadView::SavingImages { owner, name, description } => match event {
            EventView::SaveFailed { error } => Some(finish(refused(Status::InternalServerError, error))),
            EventView::ImagesSaved { names } => Some(
                (
                    PostUploadView::Persisting,
                    EffectView::InsertPost {
                        post: NewPostView { userid: owner, name, description, imgs: slots_of(names) },
                    },
                ),
            ),
            _ => None,
        },
        PostUploadView::Persisting => match event {
            EventView::PostWritten { post } => Some(finish(uploaded(post))),
            EventView::StoreError { error } => Some(
                finish(failed(Status::InternalServerError, "Failed to insert post"@, error)),
            ),
            _ => None,
        },
        PostUploadView::Finished => None,
    }
}

/// Ends the pipeline with `reply`.
fn finished(reply: Reply) -> (step: (PostUpload, Effect))
    ensures
        (step.0@, step.1@) == finish(reply@),
{
    (PostUpload::Finished, Effect::Respond { reply })
}

/// The names that the client gave the uploads.
fn upload_names(uploads: &Vec<Upload>) -> (names: Vec<String>)
    ensures
        texts(names@) == names_of(upload_views(uploads@)),
{
    let mut names: Vec<String> = Vec::new();
    let mut i: usize = 0;
    while i < uploads.len()
        invariant
            i <= uploads.len(),
            texts(names@) =~= names_of(upload_views(uploads@.take(i as int))),
        decreases uploads.len() - i,
    {
        let ghost before = names@;
        let name = uploads[i].filename.clone();
        names.push(name);
        proof {
            assert(texts(names@) =~= texts(before).push(name@));
            assert(uploads@.take(i + 1) =~= uploads@.take(i as int).push(uploads@[i as int]));
            assert(upload_views(uploads@.take(i + 1)) =~= upload_views(uploads@.take(i as int)).push(
                uploads@[i as int]@,
            ));
            assert(names_of(upload_views(uploads@.take(i + 1))) =~= names_of(
                upload_views(uploads@.take(i as int)),
            ).push(name@));
        }
        i = i + 1;
    }
    assert(uploads@.take(uploads.len() as int) =~= uploads@);
    names
}

/// Applies the rules of the form in their order.
fn check_form(name: &str, description: &str, uploads: &Vec<Upload>) -> (r: Result<(), String>)
    ensures
        verdict(r) == form_verdict(name@, description@, upload_views(uploads@)),
{
    match Validator::validate_post_name(name) {
        Err(refusal) => {
            return Err(refusal);
        },
        Ok(_) => {},
    }
    match Validator::validate_post_description(description) {
        Err(refusal) => {
            return Err(refusal);
        },
        Ok(_) => {},
    }
    let names = upload_names(uploads);
    let given = names.as_slice();
    proof {
        assert(given.deep_view() =~= texts(names@));
    }
    Validator::validate_post_images(given)
}

impl PostUpload {
    /// Begins an upload for the caller that `claims` identifies. Without
    /// claims the request is refused at once.
    pub fn start(claims: Option<&Claims>) -> (step: (PostUpload, Effect))
        ensures
            (step.0@, step.1@) == start_model(
                match claims {
                    Some(c) => Some(c.id),
                    None => None,
                },
            ),
    {
        match claims {
            None => finished(Reply::refuse(Status::Unauthorized, "Unauthorized: No valid token found")),
            Some(c) => (PostUpload::AwaitingParts { owner: c.id }, Effect::ReadParts),
        }
    }
}

/// Takes an upload one step further: from where it stands and the answer
/// to what it last asked for, to where it stands next and what it asks for
/// now. The result is `None` where `event` is no answer to what `state`
/// waits for.
pub fn upload_post(state: PostUpload, event: Event) -> (step: Option<(PostUpload, Effect)>)
    ensures
        step_view(step) == upload_post_model(state@, event@),
{
    match state {
        PostUpload::AwaitingParts { owner } => match event {
            Event::Parts { parts } => {
                let name = field_value(&parts, "name");
                let description = field_value(&parts, "description");
                match take_uploads(parts, "postImgs") {
                    Err(refusal) => Some(finished(Reply::refuse_with(Status::BadRequest, refusal))),
                    Ok(uploads) => match check_form(name.as_str(), description.as_str(), &uploads) {
                        Err(refusal) => Some(finished(Reply::refuse_with(Status::BadRequest, refusal))),
                        Ok(_) => Some(
                            (PostUpload::SavingImages { owner, name, description }, Effect::SaveImages { uploads }),
                        ),
                    },
                }
            },
            _ => None,
        },
        PostUpload::SavingImages { owner, name, description } => match event {
            Event::SaveFailed { error } => Some(finished(Reply::refuse_with(Status::InternalServerError, error))),
            Event::ImagesSaved { names } => Some(
                (
                    PostUpload::Persisting,
                    Effect::InsertPost { post: NewPost { userid: owner, name, description, imgs: filled_slots(names) } },
                ),
            ),
            _ => None,
        },
        PostUpload::Persisting => match event {
            Event::PostWritten { post } => Some(
                finished(
                    Reply {
                        status: Status::Created,
                        body: Body::Post {
                            message: Some("User post uploaded successfully".to_owned()),
                            post: PostData::of(post),
                        },
                    },
                ),
            ),
            Event::StoreError { error } => Some(
                finished(Reply::fail(Status::InternalServerError, "Failed to insert post", error)),
            ),
            _ => None,
        },
        PostUpload::Finished => None,
    }
}

/// What is uploaded is what is read back: the post that an upload hands
/// over to be inserted holds each stored image name in a slot of its own,
/// in order and with no empty slot between them, so that a reader of the
/// stored post finds exactly those names.
pub proof fn uploaded_images_are_read_back(owner: i64, name: Seq<char>, description: Seq<char>, names: Seq<Seq<char>>)
    ensures
        upload_post_model(
            PostUploadView::SavingImages { owner, name, description },
            EventView::ImagesSaved { names },
        ) matches Some((_, EffectView::InsertPost { post })) && post.imgs.len() == names.len() && (forall|i: int|
            0 <= i < names.len() ==> #[trigger] post.imgs[i] == Some(names[i])) && crate::models::present(post.imgs)
            == names,
{
    let imgs = slots_of(names);
    assert(forall|i: int| 0 <= i < imgs.len() ==> imgs[i] == Some(names[i]));
    crate::models::present_keeps_filled_slots(imgs);
    assert forall|i: int| 0 <= i < names.len() implies crate::models::present(imgs)[i] == names[i] by {
        assert(imgs[i] == Some(names[i]));
    }
    assert(crate::models::present(imgs) =~= names);
}

/// The effects that an upload in `state` asks for as `events` arrive: one
/// for each event, up to the first event that is no answer.
pub open spec fn effects_from(state: PostUploadView, events: Seq<EventView>) -> Seq<EffectView>
    decreases events.len(),
{
    if events.len() == 0 {
        Seq::empty()
    } else {
        match upload_post_model(state, events[0]) {
            None => Seq::empty(),
            Some((next, effect)) => seq![effect] + effects_from(next, events.drop_first()),
        }
    }
}

/// Every effect of an upload by the caller `owner` to which `events` are
/// handed, the first effect included.
pub open spec fn upload_effects(owner: Option<i64>, events: Seq<EventView>) -> Seq<EffectView> {
    seq![start_model(owner).1] + effects_from(start_model(owner).0, events)
}

/// Whether the caller is identified and the first answer is a form that
/// passes every rule.
pub open spec fn form_accepted(owner: Option<i64>, events: Seq<EventView>) -> bool {
    &&& owner is Some
    &&& events.len() > 0
    &&& events[0] matches EventView::Parts { parts }
    &&& field_uploads(parts, "postImgs"@) matches Ok(uploads)
    &&& form_verdict(field_text(parts, "name"@), field_text(parts, "description"@), uploads) is Ok
}

/// A finished upload asks for nothing more.
proof fn finished_is_silent(events: Seq<EventView>)
    ensures
        effects_from(PostUploadView::Finished, events).len() == 0,
{
}

/// Every check precedes every side effect: unless the caller is identified
/// and the form passes every rule, an upload stores no image and inserts
/// no row, whatever else it is told.
pub proof fn no_write_without_accepted_form(owner: Option<i64>, events: Seq<EventView>)
    requires
        !form_accepted(owner, events),
    ensures
        forall|i: int|
            0 <= i < upload_effects(owner, events).len() ==> !(#[trigger] upload_effects(owner, events)[i]).writes(),
{
    let first = start_model(owner);
    let all = upload_effects(owner, events);
    let tail = effects_from(first.0, events);
    assert(forall|i: int| 1 <= i < all.len() ==> all[i] == tail[i - 1]);
    if owner is None {
        finished_is_silent(events);
    } else if events.len() > 0 {
        finished_is_silent(events.drop_first());
    }
}

} // verus!
