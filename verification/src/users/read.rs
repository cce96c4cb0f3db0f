//! Reading users: the display fields of one user by id, and a page of all users.

use vstd::prelude::*;
use crate::flow::{respond, Effect, EffectView, Event, EventView};
use crate::models::{user_views, UserData, UserDataView};
use crate::paging::{parameter, parameter_text, Paging};
use crate::reply::{refused, Body, BodyView, Reply, ReplyView, Status};

verus! {

/// Where the reading of one user stands.
#[derive(Debug, Clone, Copy, PartialEq, Eq, Structural)]
pub enum UserLookup {
    /// The user was asked for.
    AwaitingUser,
    /// The request was answered.
    Finished,
}

/// The answer that shows one user.
pub open spec fn shown(user: UserDataView) -> ReplyView {
    ReplyView { status: Status::Success, body: BodyView::User { user } }
}

/// The step that `event` causes in the reading of one user; `None` where
/// `event` does not answer what `state` waits for.
pub open spec fn get_user_by_id_model(state: UserLookup, event: EventView) -> Option<(UserLookup, EffectView)> {
    match state {
        UserLookup::AwaitingUser => match event {
            EventView::UserData { user: Some(user) } => Some((UserLookup::Finished, respond(shown(user)))),
            EventView::UserData { user: None } => Some(
                (UserLookup::Finished, respond(refused(Status::BadRequest, "User not found"@))),
            ),
            EventView::StoreError { error } => Some(
                (UserLookup::Finished, respond(refused(Status::InternalServerError, error))),
            ),
            _ => None,
        },
        UserLookup::Finished => None,
    }
}

/// A step of the reading of one user, as contracts see it.
pub open spec fn lookup_view(step: Option<(UserLookup, Effect)>) -> Option<(UserLookup, EffectView)> {
    match step {
        Some((state, effect)) => Some((state, effect@)),
        None => None,
    }
}

impl UserLookup {
    /// Begins the reading of the user `id`.
    pub fn start(id: i64) -> (step: (UserLookup, Effect))
        ensures
            step.0 == UserLookup::AwaitingUser,
            step.1@ == (EffectView::FindUserData { id }),
    {
        (UserLookup::AwaitingUser, Effect::FindUserData { id })
    }
}

/// Answers the reading of one user: the user's display fields, or that
/// there is no such user, or why the store failed.
pub fn get_user_by_id(state: UserLookup, event: Event) -> (step: Option<(UserLookup, Effect)>)
    ensures
        lookup_view(step) == get_user_by_id_model(state, event@),
{
    match state {
        UserLookup::AwaitingUser => match event {
            Event::UserData { user: Some(user) } => Some(
                (
                    UserLookup::Finished,
                    Effect::Respond { reply: Reply { status: Status::Success, body: Body::User { user } } },
                ),
            ),
            Event::UserData { user: None } => Some(
                (UserLookup::Finished, Effect::Respond { reply: Reply::refuse(Status::BadRequest, "User not found") }),
            ),
            Event::StoreError { error } => Some(
                (
                    UserLookup::Finished,
                    Effect::Respond { reply: Reply::refuse_with(Status::InternalServerError, error) },
                ),
            ),
            _ => None,
        },
        UserLookup::Finished => None,
    }
}

/// Where a listing of users stands.
#[derive(Debug, Clone, Copy, PartialEq, Eq, Structural)]
pub enum UserListing {
    /// The number of all users was asked for.
    AwaitingCount { limit: i64, offset: i64 },
    /// The page of users was asked for.
    AwaitingRows { total: i64 },
    /// The request was answered.
    Finished,
}

/// A step of a listing, as contracts see it.
pub open spec fn step_view(step: Option<(UserListing, Effect)>) -> Option<(UserListing, EffectView)> {
    match step {
        Some((state, effect)) => Some((state, effect@)),
        None => None,
    }
}

/// The answer that shows a page of users and the number of all users.
pub open spec fn page_of_users(total_users: i64, users: Seq<UserDataView>) -> ReplyView {
    ReplyView { status: Status::Success, body: BodyView::Users { total_users, users } }
}

/// How a listing begins: the users are counted first. A page so far out
/// that the records before it cannot be counted in 64 bits cannot be asked
/// for.
pub open spec fn start_model(paging: Paging) -> Option<(UserListing, EffectView)> {
    if i64::MIN <= paging.skipped() <= i64::MAX {
        Some(
            (
                UserListing::AwaitingCount { limit: paging.limit, offset: paging.skipped() as i64 },
                EffectView::CountUsers,
            ),
        )
    } else {
        None
    }
}

/// The step that `event` causes in `state`; `None` where `event` does not
/// answer what `state` waits for. A count that the store cannot make is
/// shown as zero, and a page that it cannot read as empty.
pub open spec fn get_all_users_model(state: UserListing, event: EventView) -> Option<(UserListing, EffectView)> {
    match state {
        UserListing::AwaitingCount { limit, offset } => match event {
            EventView::Count { total } => Some(
                (UserListing::AwaitingRows { total }, EffectView::ListUsers { limit, offset }),
            ),
            EventView::StoreError { error } => Some(
                (UserListing::AwaitingRows { total: 0 }, EffectView::ListUsers { limit, offset }),
            ),
            _ => None,
        },
        UserListing::AwaitingRows { total } => match event {
            EventView::UserRows { rows } => Some((UserListing::Finished, respond(page_of_users(total, rows)))),
            EventView::StoreError { error } => Some(
                (UserListing::Finished, respond(page_of_users(total, Seq::empty()))),
            ),
            _ => None,
        },
        UserListing::Finished => None,
    }
}

/// Ends a listing with the total and its page.
fn page_reply(total_users: i64, users: Vec<UserData>) -> (step: (UserListing, Effect))
    ensures
        step.0 == UserListing::Finished,
        step.1@ == respond(page_of_users(total_users, user_views(users@))),
{
    (
        UserListing::Finished,
        Effect::Respond { reply: Reply { status: Status::Success, body: Body::Users { total_users, users } } },
    )
}

impl UserListing {
    /// Begins a listing of the page that the query parameters `page` and
    /// `limit` name: page 1 and 3 records where they name none.
    pub fn start(page: Option<&str>, limit: Option<&str>) -> (step: Option<(UserListing, Effect)>)
        ensures
            step_view(step) == start_model(
                Paging::of(parameter(parameter_text(page)), parameter(parameter_text(limit))),
            ),
    {
        let paging = Paging::from_query(page, limit);
        match paging.offset() {
            None => None,
            Some(offset) => Some((UserListing::AwaitingCount { limit: paging.limit, offset }, Effect::CountUsers)),
        }
    }
}

/// Takes a listing of users one step further: the users are counted, then
/// the page is read, and both are shown. The result is `None` where
/// `event` is no answer to what `state` waits for.
pub fn get_all_users(state: UserListing, event: Event) -> (step: Option<(UserListing, Effect)>)
    ensures
        step_view(step) == get_all_users_model(state, event@),
{
    match state {
        UserListing::AwaitingCount { limit, offset } => match event {
            Event::Count { total } => Some((UserListing::AwaitingRows { total }, Effect::ListUsers { limit, offset })),
            Event::StoreError { error } => Some(
                (UserListing::AwaitingRows { total: 0 }, Effect::ListUsers { limit, offset }),
            ),
            _ => None,
        },
        UserListing::AwaitingRows { total } => match event {
            Event::UserRows { rows } => Some(page_reply(total, rows)),
            Event::StoreError { error } => {
                let users: Vec<UserData> = Vec::new();
                assert(user_views(users@) =~= Seq::empty());
                Some(page_reply(total, users))
            },
            _ => None,
        },
        UserListing::Finished => None,
    }
}

} // verus!
