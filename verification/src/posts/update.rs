//! The update of a post: the owner may, in one request, rename it, describe
//! it anew, delete some of its images and add others. The pipeline resolves
//! the post, checks the owner, reads the request and checks all of it,
//! removes the images that are to go, stores the new images and writes the
//! supplied fields, in this order, and stops at the first step that fails.
//! Nothing is changed before the owner and the request are checked.

use vstd::prelude::*;
use vstd::string::StringExecFns;
use crate::flow::{respond, Effect, EffectView, Event, EventView};
use crate::media::{upload_views, Directory, Upload, UploadView};
use crate::models::{slot_texts, slots_of, texts, Claims, PostChanges, PostChangesView, PostData, PostView,
    UpdatePostFields, UpdatePostFieldsView};
use crate::multipart::{field_text, field_texts, field_uploads, field_value, field_values, take_uploads, PartView};
use crate::reply::{failed, refused, Body, BodyView, Reply, ReplyView, Status};
use crate::text::{same_text, trimmed};
use crate::validation::{post_description_verdict, post_name_verdict, Validator};

verus! {

/// What is left of an update once the request was read: the post's image
/// list as it stands, the supplied texts, the images to add, the names to
/// delete, and how many of those were handled.
#[derive(Debug, Clone, PartialEq, Eq)]
pub struct PendingUpdate {
    pub post_id: i32,
    pub imgs: Vec<Option<String>>,
    pub fields: UpdatePostFields,
    pub uploads: Vec<Upload>,
    pub deletions: Vec<String>,
    pub next: usize,
}

/// A pending update, as contracts see it.
pub ghost struct PendingUpdateView {
    pub post_id: i32,
    pub imgs: Seq<Option<Seq<char>>>,
    pub fields: UpdatePostFieldsView,
    pub uploads: Seq<UploadView>,
    pub deletions: Seq<Seq<char>>,
    pub next: nat,
}

impl View for PendingUpdate {
    type V = PendingUpdateView;

    open spec fn view(&self) -> PendingUpdateView {
        PendingUpdateView {
            post_id: self.post_id,
            imgs: slot_texts(self.imgs@),
            fields: self.fields@,
            uploads: upload_views(self.uploads@),
            deletions: texts(self.deletions@),
            next: self.next as nat,
        }
    }
}

/// Where an update stands. Each state but the last waits for the answer to
/// the effect that led to it.
#[derive(Debug, Clone, PartialEq, Eq)]
pub enum PostUpdate {
    /// The post was asked for; `owner` is the caller's id.
    AwaitingPost { owner: i64, post_id: i32 },
    /// The caller owns the post; the request's parts were asked for.
    AwaitingParts { post_id: i32, imgs: Vec<Option<String>> },
    /// It was asked whether the file of the next deletion is there.
    CheckingFile { pending: PendingUpdate },
    /// The removal of that file was asked for.
    RemovingFile { pending: PendingUpdate },
    /// The new images were handed over to be stored.
    SavingImages { post_id: i32, imgs: Vec<Option<String>>, fields: UpdatePostFields },
    /// The supplied fields were handed over to be written.
    Persisting,
    /// The request was answered.
    Finished,
}

/// The state of an update, as contracts see it.
pub ghost enum PostUpdateView {
    AwaitingPost { owner: i64, post_id: i32 },
    AwaitingParts { post_id: i32, imgs: Seq<Option<Seq<char>>> },
    CheckingFile { pending: PendingUpdateView },
    RemovingFile { pending: PendingUpdateView },
    SavingImages { post_id: i32, imgs: Seq<Option<Seq<char>>>, fields: UpdatePostFieldsView },
    Persisting,
    Finished,
}

impl View for PostUpdate {
    type V = PostUpdateView;

    open spec fn view(&self) -> PostUpdateView {
        match *self {
            PostUpdate::AwaitingPost { owner, post_id } => PostUpdateView::AwaitingPost { owner, post_id },
            PostUpdate::AwaitingParts { post_id, imgs } => PostUpdateView::AwaitingParts {
                post_id,
                imgs: slot_texts(imgs@),
            },
            PostUpdate::CheckingFile { pending } => PostUpdateView::CheckingFile { pending: pending@ },
            PostUpdate::RemovingFile { pending } => PostUpdateView::RemovingFile { pending: pending@ },
            PostUpdate::SavingImages { post_id, imgs, fields } => PostUpdateView::SavingImages {
                post_id,
                imgs: slot_texts(imgs@),
                fields: fields@,
            },
            PostUpdate::Persisting => PostUpdateView::Persisting,
            PostUpdate::Finished => PostUpdateView::Finished,
        }
    }
}

/// A step of the pipeline, as contracts see it.
pub open spec fn step_view(step: Option<(PostUpdate, Effect)>) -> Option<(PostUpdateView, EffectView)> {
    match step {
        Some((state, effect)) => Some((state@, effect@)),
        None => None,
    }
}

/// The step that answers the request and ends the pipeline.
pub open spec fn finish(reply: ReplyView) -> (PostUpdateView, EffectView) {
    (PostUpdateView::Finished, respond(reply))
}

/// `imgs` without the slots that hold `name`. Empty slots stay.
pub open spec fn struck(imgs: Seq<Option<Seq<char>>>, name: Seq<char>) -> Seq<Option<Seq<char>>>
    decreases imgs.len(),
{
    if imgs.len() == 0 {
        imgs
    } else if imgs.last() == Some(name) {
        struck(imgs.drop_last(), name)
    } else {
        struck(imgs.drop_last(), name).push(imgs.last())
    }
}

/// Striking a name leaves no slot that holds it and no slot more than
/// before; a list that does not hold the name stays as it is.
pub proof fn struck_holds_no_such_name(imgs: Seq<Option<Seq<char>>>, name: Seq<char>)
    ensures
        struck(imgs, name).len() <= imgs.len(),
        forall|i: int| 0 <= i < struck(imgs, name).len() ==> #[trigger] struck(imgs, name)[i] != Some(name),
        (forall|i: int| 0 <= i < imgs.len() ==> #[trigger] imgs[i] != Some(name)) ==> struck(imgs, name) == imgs,
    decreases imgs.len(),
{
    if imgs.len() > 0 {
        let before = imgs.drop_last();
        struck_holds_no_such_name(before, name);
        if forall|i: int| 0 <= i < imgs.len() ==> #[trigger] imgs[i] != Some(name) {
            assert forall|i: int| 0 <= i < before.len() implies #[trigger] before[i] != Some(name) by {
                assert(before[i] == imgs[i]);
            }
            assert(imgs.last() == imgs[imgs.len() - 1]);
            assert(struck(imgs, name) =~= imgs);
        }
    }
}

/// `imgs` followed by a filled slot for each of `names`.
pub open spec fn extended(imgs: Seq<Option<Seq<char>>>, names: Seq<Seq<char>>) -> Seq<Option<Seq<char>>> {
    imgs + slots_of(names)
}

/// A text field as the request supplies it: trimmed, and absent where
/// nothing is left.
pub open spec fn supplied(text: Seq<char>) -> Option<Seq<char>> {
    if trimmed(text).len() == 0 {
        None
    } else {
        Some(trimmed(text))
    }
}

/// The answer to a deletion whose file is not there.
pub open spec fn file_not_found(name: Seq<char>) -> ReplyView {
    refused(Status::BadRequest, "File not found: "@ + name)
}

/// The answer to an update that was written: the stored post, with its
/// images shown without the empty slots.
pub open spec fn updated(post: PostView) -> ReplyView {
    ReplyView {
        status: Status::Success,
        body: BodyView::Post { message: Some("Post updated successfully"@), post: post.compacted() },
    }
}

/// The first refusal among the rules for a supplied name and a supplied
/// description, in this order. A field that is not supplied passes.
pub open spec fn texts_verdict(fields: UpdatePostFieldsView) -> Result<(), Seq<char>> {
    if fields.name is Some && post_name_verdict(fields.name->0) is Err {
        post_name_verdict(fields.name->0)
    } else if fields.description is Some {
        post_description_verdict(fields.description->0)
    } else {
        Ok(())
    }
}

/// What a request asks for, read from its parts: the supplied texts, the
/// images to add, and the names to delete; or the first refusal, of an
/// image first and of a text then.
pub open spec fn request_of(post_id: i32, imgs: Seq<Option<Seq<char>>>, parts: Seq<PartView>) -> Result<
    PendingUpdateView,
    Seq<char>,
> {
    let fields = UpdatePostFieldsView {
        name: supplied(field_text(parts, "name"@)),
        description: supplied(field_text(parts, "description"@)),
    };
    match field_uploads(parts, "postImgs"@) {
        Err(refusal) => Err(refusal),
        Ok(uploads) => match texts_verdict(fields) {
            Err(refusal) => Err(refusal),
            Ok(_) => Ok(
                PendingUpdateView { post_id, imgs, fields, uploads, deletions: field_texts(parts, "deleteImg"@), next: 0 },
            ),
        },
    }
}

/// How an update begins: without claims it is refused; with them the post
/// is asked for.
pub open spec fn start_model(owner: Option<i64>, post_id: i32) -> (PostUpdateView, EffectView) {
    match owner {
        None => finish(refused(Status::Unauthorized, "Unauthorized: No valid token found"@)),
        Some(id) => (PostUpdateView::AwaitingPost { owner: id, post_id }, EffectView::FindPost { id: post_id }),
    }
}

/// What follows once the deletions before `pending.next` are done: the next
/// deletion, or the rest of the update.
pub open spec fn next_deletion(pending: PendingUpdateView) -> (PostUpdateView, EffectView) {
    if pending.next < pending.deletions.len() {
        (
            PostUpdateView::CheckingFile { pending },
            EffectView::FileExists { directory: Directory::Posts, name: pending.deletions[pending.next as int] },
        )
    } else {
        after_deletions(pending)
    }
}

/// The fields that an update writes: the supplied texts, and the image
/// list where the request touched it.
pub open spec fn changes_of(
    fields: UpdatePostFieldsView,
    imgs: Option<Seq<Option<Seq<char>>>>,
) -> PostChangesView {
    PostChangesView { name: fields.name, description: fields.description, imgs }
}

/// What follows the deletions: the new images are stored, or, where there
/// are none, the fields are written.
pub open spec fn after_deletions(pending: PendingUpdateView) -> (PostUpdateView, EffectView) {
    if pending.uploads.len() > 0 {
        (
            PostUpdateView::SavingImages { post_id: pending.post_id, imgs: pending.imgs, fields: pending.fields },
            EffectView::SaveImages { uploads: pending.uploads },
        )
    } else {
        (
            PostUpdateView::Persisting,
            EffectView::UpdatePost {
                id: pending.post_id,
                changes: changes_of(
                    pending.fields,
                    if pending.deletions.len() > 0 {
                        Some(pending.imgs)
                    } else {
                        None
                    },
                ),
            },
        )
    }
}

/// The step that `event` causes in `state`; `None` where `event` does not
/// answer what `state` waits for.
pub open spec fn update_post_model(state: PostUpdateView, event: EventView) -> Option<
    (PostUpdateView, EffectView),
> {
    match state {
        PostUpdateView::AwaitingPost { owner, post_id } => match event {
            EventView::Post { post: None } => Some(finish(refused(Status::NotFound, "Post not found"@))),
            EventView::StoreError { error } => Some(
                finish(failed(Status::InternalServerError, "Database error"@, error)),
            ),
            EventView::Post { post: Some(post) } => if post.userid != owner {
                Some(finish(refused(Status::Forbidden, "You can only update your own posts"@)))
            } else {
                Some((PostUpdateView::AwaitingParts { post_id, imgs: post.imgs }, EffectView::ReadParts))
            },
            _ => None,
        },
        PostUpdateView::AwaitingParts { post_id, imgs } => match event {
            EventView::Parts { parts } => match request_of(post_id, imgs, parts) {
                Err(refusal) => Some(finish(refused(Status::BadRequest, refusal))),
                Ok(pending) => Some(next_deletion(pending)),
            },
            _ => None,
        },
        PostUpdateView::CheckingFile { pending } => match event {
            EventView::Exists { exists } => if pending.next >= pending.deletions.len() {
                None
            } else if !exists {
                Some(finish(file_not_found(pending.deletions[pending.next as int])))
            } else {
                Some(
                    (
                        PostUpdateView::RemovingFile { pending },
                        EffectView::RemoveFile {
                            directory: Directory::Posts,
                            name: pending.deletions[pending.next as int],
                        },
                    ),
                )
            },
            _ => None,
        },
        PostUpdateView::RemovingFile { pending } => match event {
            EventView::Removed { removed } => if pending.next >= pending.deletions.len() {
                None
            } else {
                Some(
                    next_deletion(
                        PendingUpdateView {
                            imgs: struck(pending.imgs, pending.deletions[pending.next as int]),
                            next: pending.next + 1,
                            ..pending
                        },
                    ),
                )
            },
            _ => None,
        },
        PostUpdateView::SavingImages { post_id, imgs, fields } => match event {
            EventView::ImagesSaved { names } => Some(
                (
                    PostUpdateView::Persisting,
                    EffectView::UpdatePost { id: post_id, changes: changes_of(fields, Some(extended(imgs, names))) },
                ),
            ),
            EventView::SaveFailed { error } => Some(finish(refused(Status::InternalServerError, error))),
            _ => None,
        },
        PostUpdateView::Persisting => match event {
            EventView::PostWritten { post } => Some(finish(updated(post))),
            EventView::StoreError { error } => Some(
                finish(failed(Status::InternalServerError, "Failed to update post"@, error)),
            ),
            _ => None,
        },
        PostUpdateView::Finished => None,
    }
}

/// Ends the pipeline with `reply`.
fn finished(reply: Reply) -> (step: (PostUpdate, Effect))
    ensures
        (step.0@, step.1@) == finish(reply@),
{
    (PostUpdate::Finished, Effect::Respond { reply })
}

/// What is left of `text` after trimming, where anything is.
fn supplied_text(text: String) -> (field: Option<String>)
    ensures
        crate::models::optional_text(field) == supplied(text@),
{
    let kept = text.as_str().trim();
    if kept.is_empty() {
        None
    } else {
        Some(kept.to_owned())
    }
}

/// Removes from `imgs` the slots that hold `name`.
fn strike(imgs: Vec<Option<String>>, name: &str) -> (kept: Vec<Option<String>>)
    ensures
        slot_texts(kept@) == struck(slot_texts(imgs@), name@),
{
    let mut kept: Vec<Option<String>> = Vec::new();
    let ghost all = imgs@;
    assert(slot_texts(all.take(0)) =~= Seq::empty());
    assert(slot_texts(kept@) =~= Seq::empty());
    for slot in it: imgs
        invariant
            it.seq() == all,
            slot_texts(kept@) == struck(slot_texts(all.take(it.index())), name@),
    {
        proof {
            let i = it.index();
            assert(slot_texts(all.take(i + 1)) =~= slot_texts(all.take(i)).push(slot_texts(all)[i]));
            assert(slot_texts(all.take(i + 1)).drop_last() =~= slot_texts(all.take(i)));
        }
        let strikes: bool = match &slot {
            Some(held) => same_text(held.as_str(), name),
            None => false,
        };
        if !strikes {
            let ghost before = kept@;
            kept.push(slot);
            assert(slot_texts(kept@) =~= slot_texts(before).push(slot_texts(all)[it.index()]));
        }
    }
    assert(all.take(all.len() as int) =~= all);
    kept
}

/// Appends a slot for each of `names` to `imgs`.
fn extend(imgs: Vec<Option<String>>, names: Vec<String>) -> (all: Vec<Option<String>>)
    ensures
        slot_texts(all@) == extended(slot_texts(imgs@), texts(names@)),
{
    let mut all = imgs;
    let ghost first = imgs@;
    let ghost added = names@;
    assert(slot_texts(all@) =~= extended(slot_texts(first), texts(added.take(0))));
    assert(forall|k: int| #![auto] slots_of(texts(added.take(k))).len() == texts(added.take(k)).len());
    for name in it: names
        invariant
            it.seq() == added,
            slot_texts(all@) == extended(slot_texts(first), texts(added.take(it.index()))),
    {
        let ghost before = all@;
        all.push(Some(name));
        assert(slot_texts(all@) =~= slot_texts(before).push(Some(name@)));
        assert(texts(added.take(it.index() + 1)) =~= texts(added.take(it.index())).push(name@));
        assert(slot_texts(all@) =~= extended(slot_texts(first), texts(added.take(it.index() + 1))));
    }
    assert(added.take(added.len() as int) =~= added);
    all
}

/// Applies the rules to the supplied texts, in their order.
fn check_texts(fields: &UpdatePostFields) -> (r: Result<(), String>)
    ensures
        crate::validation::verdict(r) == texts_verdict(fields@),
{
    match &fields.name {
        Some(name) => match Validator::validate_post_name(name.as_str()) {
            Err(refusal) => {
                return Err(refusal);
            },
            Ok(_) => {},
        },
        None => {},
    }
    match &fields.description {
        Some(description) => Validator::validate_post_description(description.as_str()),
        None => Ok(()),
    }
}

/// Goes on after the deletions: stores the new images, or writes the fields.
fn finish_deletions(pending: PendingUpdate) -> (step: (PostUpdate, Effect))
    ensures
        (step.0@, step.1@) == after_deletions(pending@),
{
    let PendingUpdate { post_id, imgs, fields, uploads, deletions, next } = pending;
    if uploads.len() > 0 {
        (PostUpdate::SavingImages { post_id, imgs, fields }, Effect::SaveImages { uploads })
    } else {
        let touched: Option<Vec<Option<String>>> = if deletions.len() > 0 {
            Some(imgs)
        } else {
            None
        };
        let UpdatePostFields { name, description } = fields;
        (
            PostUpdate::Persisting,
            Effect::UpdatePost { id: post_id, changes: PostChanges { name, description, imgs: touched } },
        )
    }
}

/// Goes on to the next deletion, or to what follows the deletions.
fn continue_deletions(pending: PendingUpdate) -> (step: (PostUpdate, Effect))
    ensures
        (step.0@, step.1@) == next_deletion(pending@),
{
    if pending.next < pending.deletions.len() {
        let name = pending.deletions[pending.next].clone();
        proof {
            assert(texts(pending.deletions@)[pending.next as int] == name@);
        }
        (PostUpdate::CheckingFile { pending }, Effect::FileExists { directory: Directory::Posts, name })
    } else {
        finish_deletions(pending)
    }
}

impl PostUpdate {
    /// Begins an update of the post `post_id` for the caller that `claims`
    /// identifies. Without claims the request is refused at once.
    pub fn start(claims: Option<&Claims>, post_id: i32) -> (step: (PostUpdate, Effect))
        ensures
            (step.0@, step.1@) == start_model(
                match claims {
                    Some(c) => Some(c.id),
                    None => None,
                },
                post_id,
            ),
    {
        match claims {
            None => finished(Reply::refuse(Status::Unauthorized, "Unauthorized: No valid token found")),
            Some(c) => (PostUpdate::AwaitingPost { owner: c.id, post_id }, Effect::FindPost { id: post_id }),
        }
    }
}

/// Takes an update one step further: from where it stands and the answer
/// to what it last asked for, to where it stands next and what it asks for
/// now. The result is `None` where `event` is no answer to what `state`
/// waits for; a finished update waits for nothing.
pub fn update_post(state: PostUpdate, event: Event) -> (step: Option<(PostUpdate, Effect)>)
    ensures
        step_view(step) == update_post_model(state@, event@),
{
    match state {
        PostUpdate::AwaitingPost { owner, post_id } => match event {
            Event::Post { post: None } => Some(finished(Reply::refuse(Status::NotFound, "Post not found"))),
            Event::StoreError { error } => Some(
                finished(Reply::fail(Status::InternalServerError, "Database error", error)),
            ),
            Event::Post { post: Some(post) } => {
                if post.userid != owner {
                    Some(finished(Reply::refuse(Status::Forbidden, "You can only update your own posts")))
                } else {
                    Some((PostUpdate::AwaitingParts { post_id, imgs: post.imgs }, Effect::ReadParts))
                }
            },
            _ => None,
        },
        PostUpdate::AwaitingParts { post_id, imgs } => match event {
            Event::Parts { parts } => {
                let name = supplied_text(field_value(&parts, "name"));
                let description = supplied_text(field_value(&parts, "description"));
                let fields = UpdatePostFields { name, description };
                let deletions = field_values(&parts, "deleteImg");
                match take_uploads(parts, "postImgs") {
                    Err(refusal) => Some(finished(Reply::refuse_with(Status::BadRequest, refusal))),
                    Ok(uploads) => match check_texts(&fields) {
                        Err(refusal) => Some(finished(Reply::refuse_with(Status::BadRequest, refusal))),
                        Ok(_) => Some(
                            continue_deletions(PendingUpdate { post_id, imgs, fields, uploads, deletions, next: 0 }),
                        ),
                    },
                }
            },
            _ => None,
        },
        PostUpdate::CheckingFile { pending } => match event {
            Event::Exists { exists } => {
                if pending.next >= pending.deletions.len() {
                    None
                } else {
                    let name = pending.deletions[pending.next].clone();
                    proof {
                        assert(texts(pending.deletions@)[pending.next as int] == name@);
                    }
                    if !exists {
                        let mut message = "File not found: ".to_owned();
                        message.append(name.as_str());
                        Some(finished(Reply::refuse_with(Status::BadRequest, message)))
                    } else {
                        Some(
                            (
                                PostUpdate::RemovingFile { pending },
                                Effect::RemoveFile { directory: Directory::Posts, name },
                            ),
                        )
                    }
                }
            },
            _ => None,
        },
        PostUpdate::RemovingFile { pending } => match event {
            Event::Removed { removed } => {
                if pending.next >= pending.deletions.len() {
                    None
                } else {
                    let PendingUpdate { post_id, imgs, fields, uploads, deletions, next } = pending;
                    proof {
                        assert(texts(deletions@)[next as int] == deletions[next as int]@);
                    }
                    let imgs = strike(imgs, deletions[next].as_str());
                    Some(
                        continue_deletions(
                            PendingUpdate { post_id, imgs, fields, uploads, deletions, next: next + 1 },
                        ),
                    )
                }
            },
            _ => None,
        },
        PostUpdate::SavingImages { post_id, imgs, fields } => match event {
            Event::ImagesSaved { names } => {
                let UpdatePostFields { name, description } = fields;
                Some(
                    (
                        PostUpdate::Persisting,
                        Effect::UpdatePost {
                            id: post_id,
                            changes: PostChanges { name, description, imgs: Some(extend(imgs, names)) },
                        },
                    ),
                )
            },
            Event::SaveFailed { error } => Some(
                finished(Reply::refuse_with(Status::InternalServerError, error)),
            ),
            _ => None,
        },
        PostUpdate::Persisting => match event {
            Event::PostWritten { post } => Some(
                finished(
                    Reply {
                        status: Status::Success,
                        body: Body::Post {
                            message: Some("Post updated successfully".to_owned()),
                            post: PostData::compact(post),
                        },
                    },
                ),
            ),
            Event::StoreError { error } => Some(
                finished(Reply::fail(Status::InternalServerError, "Failed to update post", error)),
            ),
            _ => None,
        },
        PostUpdate::Finished => None,
    }
}

/// The effects that an update in `state` asks for as `events` arrive: one
/// for each event, up to the first event that is no answer.
pub open spec fn effects_from(state: PostUpdateView, events: Seq<EventView>) -> Seq<EffectView>
    decreases events.len(),
{
    if events.len() == 0 {
        Seq::empty()
    } else {
        match update_post_model(state, events[0]) {
            None => Seq::empty(),
            Some((next, effect)) => seq![effect] + effects_from(next, events.drop_first()),
        }
    }
}

/// Every effect of an update of the post `post_id` by the caller `owner`
/// to which `events` are handed, the first effect included.
pub open spec fn update_effects(owner: Option<i64>, post_id: i32, events: Seq<EventView>) -> Seq<EffectView> {
    seq![start_model(owner, post_id).1] + effects_from(start_model(owner, post_id).0, events)
}

/// Whether the first answer is a post that `owner` owns.
pub open spec fn owner_confirmed(owner: Option<i64>, events: Seq<EventView>) -> bool {
    &&& owner is Some
    &&& events.len() > 0
    &&& events[0] matches EventView::Post { post: Some(post) }
    &&& post.userid == owner->0
}

/// A finished update asks for nothing more.
proof fn finished_is_silent(events: Seq<EventView>)
    ensures
        effects_from(PostUpdateView::Finished, events).len() == 0,
{
}

/// Once the fields are handed over, one answer at most is taken.
proof fn persisting_ends(events: Seq<EventView>)
    ensures
        effects_from(PostUpdateView::Persisting, events).len() <= 1,
        forall|i: int|
            0 <= i < effects_from(PostUpdateView::Persisting, events).len() ==> !(#[trigger] effects_from(
                PostUpdateView::Persisting,
                events,
            )[i]).writes(),
{
    if events.len() > 0 {
        finished_is_silent(events.drop_first());
    }
}

/// The ownership check precedes every side effect: unless the caller is
/// identified and the first answer is a post that the caller owns, an
/// update changes no row and writes or removes no file, whatever else it
/// is told.
pub proof fn no_write_without_ownership(owner: Option<i64>, post_id: i32, events: Seq<EventView>)
    requires
        !owner_confirmed(owner, events),
    ensures
        forall|i: int|
            0 <= i < update_effects(owner, post_id, events).len() ==> !(#[trigger] update_effects(
                owner,
                post_id,
                events,
            )[i]).writes(),
{
    let first = start_model(owner, post_id);
    if owner is None {
        finished_is_silent(events);
    } else if events.len() > 0 {
        finished_is_silent(events.drop_first());
    }
}

/// Whether the second answer is a request that passes every check.
pub open spec fn request_accepted(events: Seq<EventView>) -> bool {
    &&& events.len() > 1
    &&& events[0] matches EventView::Post { post: Some(post) }
    &&& events[1] matches EventView::Parts { parts }
    &&& field_uploads(parts, "postImgs"@) is Ok
    &&& texts_verdict(
        UpdatePostFieldsView {
            name: supplied(field_text(parts, "name"@)),
            description: supplied(field_text(parts, "description"@)),
        },
    ) is Ok
}

/// Every check of the request precedes every side effect: unless each new
/// image and each supplied text passes its rule, an update changes no row
/// and writes or removes no file, whatever else it is told.
pub proof fn no_write_without_accepted_request(owner: Option<i64>, post_id: i32, events: Seq<EventView>)
    requires
        !request_accepted(events),
    ensures
        forall|i: int|
            0 <= i < update_effects(owner, post_id, events).len() ==> !(#[trigger] update_effects(
                owner,
                post_id,
                events,
            )[i]).writes(),
{
    let first = start_model(owner, post_id);
    let all = update_effects(owner, post_id, events);
    let tail = effects_from(first.0, events);
    assert(forall|i: int| 1 <= i < all.len() ==> all[i] == tail[i - 1]);
    if owner is None {
        finished_is_silent(events);
    } else if events.len() > 0 && update_post_model(first.0, events[0]) is Some {
        let second = update_post_model(first.0, events[0])->0;
        let rest = events.drop_first();
        let rest_effects = effects_from(second.0, rest);
        assert(tail =~= seq![second.1] + rest_effects);
        assert(forall|i: int| 1 <= i < tail.len() ==> tail[i] == rest_effects[i - 1]);
        finished_is_silent(rest);
        if rest.len() > 0 && update_post_model(second.0, rest[0]) is Some {
            assert(rest[0] == events[1]);
            let third = update_post_model(second.0, rest[0])->0;
            let last = effects_from(third.0, rest.drop_first());
            assert(rest_effects =~= seq![third.1] + last);
            finished_is_silent(rest.drop_first());
        }
    }
}

/// Whether an update in `state` has neither handed over new images to be
/// stored nor fields to be written.
pub open spec fn before_saving(state: PostUpdateView) -> bool {
    !(state is SavingImages) && !(state is Persisting) && !(state is Finished)
}

/// Whether `effect` stores a new image or changes a row.
pub open spec fn stores_or_writes(effect: EffectView) -> bool {
    effect is SaveImages || effect.writes_store()
}

/// Once the new images are handed over, no answer about a file is taken.
proof fn saving_takes_no_file_answer(state: PostUpdateView, events: Seq<EventView>, j: int)
    requires
        state is SavingImages || state is Persisting,
        0 <= j < events.len(),
        events[j] is Exists,
    ensures
        effects_from(state, events).len() <= j,
{
    if j > 0 && update_post_model(state, events[0]) is Some {
        let taken = update_post_model(state, events[0])->0;
        let rest = events.drop_first();
        assert(rest[j - 1] == events[j]);
        finished_is_silent(rest);
        if taken.0 is Persisting {
            persisting_ends(rest);
            if j == 1 {
                assert(update_post_model(taken.0, rest[0]) is None);
            }
        }
    }
}

/// An update that has stored and written nothing yet, and that takes the
/// answer "not there" as its answer number `k`, ends with that answer,
/// and stores and writes nothing.
proof fn missing_file_ends(state: PostUpdateView, events: Seq<EventView>, k: int)
    requires
        before_saving(state),
        0 <= k < events.len(),
        events[k] == (EventView::Exists { exists: false }),
        k < effects_from(state, events).len(),
    ensures
        effects_from(state, events).len() == k + 1,
        effects_from(state, events)[k] matches EffectView::Respond { reply } && reply.status
            == Status::BadRequest,
        forall|i: int|
            0 <= i < effects_from(state, events).len() ==> !stores_or_writes(
                #[trigger] effects_from(state, events)[i],
            ),
    decreases k,
{
    let step = update_post_model(state, events[0]);
    let rest = events.drop_first();
    if k == 0 {
        finished_is_silent(rest);
    } else {
        let taken = step->0;
        let next = taken.0;
        assert(rest[k - 1] == events[k]);
        if next is Finished {
            finished_is_silent(rest);
        } else if next is Persisting || next is SavingImages {
            saving_takes_no_file_answer(next, rest, k - 1);
        } else {
            missing_file_ends(next, rest, k - 1);
            let tail = effects_from(next, rest);
            assert forall|i: int| 0 <= i < effects_from(state, events).len() implies !stores_or_writes(
                #[trigger] effects_from(state, events)[i],
            ) by {
                if i > 0 {
                    assert(effects_from(state, events)[i] == tail[i - 1]);
                }
            }
        }
    }
}

/// A deletion whose file is not there fails the whole update: where the
/// answer number `k` says of a file to delete that it is not there, the
/// update ends with that answer, refusing the request; no new image was
/// stored and no row was changed before it. Files that earlier deletions
/// of the same request removed stay removed.
pub proof fn missing_file_fails_update(owner: Option<i64>, post_id: i32, events: Seq<EventView>, k: int)
    requires
        0 <= k < events.len(),
        events[k] == (EventView::Exists { exists: false }),
        k + 1 < update_effects(owner, post_id, events).len(),
    ensures
        update_effects(owner, post_id, events).len() == k + 2,
        update_effects(owner, post_id, events)[k + 1] matches EffectView::Respond { reply } && reply.status
            == Status::BadRequest,
        forall|i: int|
            0 <= i < update_effects(owner, post_id, events).len() ==> !stores_or_writes(
                #[trigger] update_effects(owner, post_id, events)[i],
            ),
{
    let first = start_model(owner, post_id);
    if owner is None {
        finished_is_silent(events);
    } else {
        missing_file_ends(first.0, events, k);
        let tail = effects_from(first.0, events);
        assert forall|i: int| 0 <= i < update_effects(owner, post_id, events).len() implies !stores_or_writes(
            #[trigger] update_effects(owner, post_id, events)[i],
        ) by {
            if i > 0 {
                assert(update_effects(owner, post_id, events)[i] == tail[i - 1]);
            }
        }
    }
}

} // verus!
