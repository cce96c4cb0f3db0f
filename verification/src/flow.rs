//! The vocabulary in which a request pipeline talks to its driver. A
//! pipeline asks for one effect at a time; the driver performs it and hands
//! back the event that answers it. `Respond` ends the pipeline.

use vstd::prelude::*;
use crate::credentials::{hash_password, password_matches};
use crate::media::{upload_views, Directory, Upload, UploadView};
use crate::models::{post_row_views, texts, user_views, NewPost, NewPostView, NewUser, NewUserView, Post,
    PostChanges, PostChangesView, PostRow, PostRowView, PostView, User, UserData, UserDataView, UserView};
use crate::multipart::{part_views, Part, PartView};
use crate::reply::{Reply, ReplyView};

verus! {

/// What a pipeline asks its driver to do.
#[derive(Debug, Clone, PartialEq, Eq)]
pub enum Effect {
    /// Look up the post with this id.
    FindPost { id: i32 },
    /// Look up the user with this id.
    FindUser { id: i64 },
    /// Look up the display fields of the user with this id.
    FindUserData { id: i64 },
    /// Look up the user with this e-mail address.
    FindUserByEmail { email: String },
    /// Look up a user with this e-mail address and another id.
    FindOtherUserByEmail { email: String, id: i64 },
    /// Look up the password hash of the user with this id.
    FindPasswordHash { id: i64 },
    /// Read a page of posts, newest first, each joined with its owner.
    ListPosts { limit: i64, offset: i64 },
    /// Count all posts.
    CountPosts,
    /// Read a page of users.
    ListUsers { limit: i64, offset: i64 },
    /// Count all users.
    CountUsers,
    /// Read the parts of the multi-part body.
    ReadParts,
    /// Say whether the file of this name is in the directory.
    FileExists { directory: Directory, name: String },
    /// Remove the file of this name from the directory.
    RemoveFile { directory: Directory, name: String },
    /// Store a profile image.
    SaveProfileImage { upload: Upload },
    /// Store the images of a post, in order.
    SaveImages { uploads: Vec<Upload> },
    /// Insert a post and return the stored row.
    InsertPost { post: NewPost },
    /// Set the supplied fields of the post with this id and return the stored row.
    UpdatePost { id: i32, changes: PostChanges },
    /// Delete the post with this id.
    DeletePost { id: i32 },
    /// Insert a user.
    InsertUser { user: NewUser },
    /// Set the contact fields, profile image and password of the user with this id.
    UpdateUser { id: i64, user: NewUser },
    /// Set the password hash of the user with this id.
    UpdatePassword { id: i64, hash: String },
    /// Hash a password with a fresh salt. The library answers this itself.
    HashPassword { password: String },
    /// Read the clock. The library answers this itself.
    ReadClock,
    /// Answer the request. Nothing follows.
    Respond { reply: Reply },
}

/// An effect, as contracts see it.
pub ghost enum EffectView {
    FindPost { id: i32 },
    FindUser { id: i64 },
    FindUserData { id: i64 },
    FindUserByEmail { email: Seq<char> },
    FindOtherUserByEmail { email: Seq<char>, id: i64 },
    FindPasswordHash { id: i64 },
    ListPosts { limit: i64, offset: i64 },
    CountPosts,
    ListUsers { limit: i64, offset: i64 },
    CountUsers,
    ReadParts,
    FileExists { directory: Directory, name: Seq<char> },
    RemoveFile { directory: Directory, name: Seq<char> },
    SaveProfileImage { upload: UploadView },
    SaveImages { uploads: Seq<UploadView> },
    InsertPost { post: NewPostView },
    UpdatePost { id: i32, changes: PostChangesView },
    DeletePost { id: i32 },
    InsertUser { user: NewUserView },
    UpdateUser { id: i64, user: NewUserView },
    UpdatePassword { id: i64, hash: Seq<char> },
    HashPassword { password: Seq<char> },
    ReadClock,
    Respond { reply: ReplyView },
}

impl View for Effect {
    type V = EffectView;

    open spec fn view(&self) -> EffectView {
        match *self {
            Effect::FindPost { id } => EffectView::FindPost { id },
            Effect::FindUser { id } => EffectView::FindUser { id },
            Effect::FindUserData { id } => EffectView::FindUserData { id },
            Effect::FindUserByEmail { email } => EffectView::FindUserByEmail { email: email@ },
            Effect::FindOtherUserByEmail { email, id } => EffectView::FindOtherUserByEmail { email: email@, id },
            Effect::FindPasswordHash { id } => EffectView::FindPasswordHash { id },
            Effect::ListPosts { limit, offset } => EffectView::ListPosts { limit, offset },
            Effect::CountPosts => EffectView::CountPosts,
            Effect::ListUsers { limit, offset } => EffectView::ListUsers { limit, offset },
            Effect::CountUsers => EffectView::CountUsers,
            Effect::ReadParts => EffectView::ReadParts,
            Effect::FileExists { directory, name } => EffectView::FileExists { directory, name: name@ },
            Effect::RemoveFile { directory, name } => EffectView::RemoveFile { directory, name: name@ },
            Effect::SaveProfileImage { upload } => EffectView::SaveProfileImage { upload: upload@ },
            Effect::SaveImages { uploads } => EffectView::SaveImages { uploads: upload_views(uploads@) },
            Effect::InsertPost { post } => EffectView::InsertPost { post: post@ },
            Effect::UpdatePost { id, changes } => EffectView::UpdatePost { id, changes: changes@ },
            Effect::DeletePost { id } => EffectView::DeletePost { id },
            Effect::InsertUser { user } => EffectView::InsertUser { user: user@ },
            Effect::UpdateUser { id, user } => EffectView::UpdateUser { id, user: user@ },
            Effect::UpdatePassword { id, hash } => EffectView::UpdatePassword { id, hash: hash@ },
            Effect::HashPassword { password } => EffectView::HashPassword { password: password@ },
            Effect::ReadClock => EffectView::ReadClock,
            Effect::Respond { reply } => EffectView::Respond { reply: reply@ },
        }
    }
}

impl EffectView {
    /// Whether the effect changes a stored row.
    pub open spec fn writes_store(self) -> bool {
        self is InsertPost || self is UpdatePost || self is DeletePost || self is InsertUser
            || self is UpdateUser || self is UpdatePassword
    }

    /// Whether the effect writes or removes a file.
    pub open spec fn writes_disk(self) -> bool {
        self is RemoveFile || self is SaveProfileImage || self is SaveImages
    }

    /// Whether the effect changes anything: a row or a file.
    pub open spec fn writes(self) -> bool {
        self.writes_store() || self.writes_disk()
    }

    /// Whether the library answers the effect itself, without the driver.
    pub open spec fn is_local(self) -> bool {
        self is HashPassword || self is ReadClock
    }
}

/// What the driver hands back.
#[derive(Debug, Clone, PartialEq, Eq)]
pub enum Event {
    /// The post that was looked up, where there is one.
    Post { post: Option<Post> },
    /// The user that was looked up, where there is one.
    User { user: Option<User> },
    /// The display fields that were looked up, where the user exists.
    UserData { user: Option<UserData> },
    /// The password hash that was looked up, where the user exists.
    PasswordHash { hash: Option<String> },
    /// The page of joined posts that was read.
    PostRows { rows: Vec<PostRow> },
    /// The page of users that was read.
    UserRows { rows: Vec<UserData> },
    /// The number of rows that were counted.
    Count { total: i64 },
    /// The store could not do what was asked; the text says why.
    StoreError { error: String },
    /// The parts of the multi-part body.
    Parts { parts: Vec<Part> },
    /// Whether the file is there.
    Exists { exists: bool },
    /// The removal was tried; whether it succeeded.
    Removed { removed: bool },
    /// The stored name of the profile image.
    ProfileImageSaved { name: String },
    /// The stored names of the images, in order.
    ImagesSaved { names: Vec<String> },
    /// An image could not be stored; the text says why.
    SaveFailed { error: String },
    /// The row of the post as it is stored after an insert or an update.
    PostWritten { post: Post },
    /// The number of rows that a statement changed.
    Written { rows: usize },
    /// The hash of the password.
    PasswordHashed { hash: String },
    /// The password could not be hashed; the text says why.
    HashFailed { error: String },
    /// The time, in seconds since the epoch.
    Clock { now: i64 },
}

/// An event, as contracts see it.
pub ghost enum EventView {
    Post { post: Option<PostView> },
    User { user: Option<UserView> },
    UserData { user: Option<UserDataView> },
    PasswordHash { hash: Option<Seq<char>> },
    PostRows { rows: Seq<PostRowView> },
    UserRows { rows: Seq<UserDataView> },
    Count { total: i64 },
    StoreError { error: Seq<char> },
    Parts { parts: Seq<PartView> },
    Exists { exists: bool },
    Removed { removed: bool },
    ProfileImageSaved { name: Seq<char> },
    ImagesSaved { names: Seq<Seq<char>> },
    SaveFailed { error: Seq<char> },
    PostWritten { post: PostView },
    Written { rows: usize },
    PasswordHashed { hash: Seq<char> },
    HashFailed { error: Seq<char> },
    Clock { now: i64 },
}

impl View for Event {
    type V = EventView;

    open spec fn view(&self) -> EventView {
        match *self {
            Event::Post { post } => EventView::Post {
                post: match post {
                    Some(found) => Some(found@),
                    None => None,
                },
            },
            Event::User { user } => EventView::User {
                user: match user {
                    Some(found) => Some(found@),
                    None => None,
                },
            },
            Event::UserData { user } => EventView::UserData {
                user: match user {
                    Some(found) => Some(found@),
                    None => None,
                },
            },
            Event::PasswordHash { hash } => EventView::PasswordHash {
                hash: match hash {
                    Some(found) => Some(found@),
                    None => None,
                },
            },
            Event::PostRows { rows } => EventView::PostRows { rows: post_row_views(rows@) },
            Event::UserRows { rows } => EventView::UserRows { rows: user_views(rows@) },
            Event::Count { total } => EventView::Count { total },
            Event::StoreError { error } => EventView::StoreError { error: error@ },
            Event::Parts { parts } => EventView::Parts { parts: part_views(parts@) },
            Event::Exists { exists } => EventView::Exists { exists },
            Event::Removed { removed } => EventView::Removed { removed },
            Event::ProfileImageSaved { name } => EventView::ProfileImageSaved { name: name@ },
            Event::ImagesSaved { names } => EventView::ImagesSaved { names: texts(names@) },
            Event::SaveFailed { error } => EventView::SaveFailed { error: error@ },
            Event::PostWritten { post } => EventView::PostWritten { post: post@ },
            Event::Written { rows } => EventView::Written { rows },
            Event::PasswordHashed { hash } => EventView::PasswordHashed { hash: hash@ },
            Event::HashFailed { error } => EventView::HashFailed { error: error@ },
            Event::Clock { now } => EventView::Clock { now },
        }
    }
}

/// The time by the system's clock, in seconds since the epoch, as
/// `chrono::Utc::now` tells it. Nothing is promised of it.
#[verifier::external_body]
fn unix_now() -> (now: i64) {
    chrono::Utc::now().timestamp()
}

/// Whether `event` is an answer that the library may give to `effect`: to
/// a password, a hash that matches it or the failure to make one; to a
/// reading of the clock, any time.
pub open spec fn answers_locally(effect: EffectView, event: EventView) -> bool {
    match effect {
        EffectView::HashPassword { password } => event is HashFailed || (event matches EventView::PasswordHashed {
            hash,
        } && password_matches(password, hash)),
        EffectView::ReadClock => event is Clock,
        _ => false,
    }
}

/// Answers `effect` where the library can: a password is hashed, the clock
/// is read. Every other effect is handed back for the driver.
pub fn answer_locally(effect: Effect) -> (r: Result<Event, Effect>)
    ensures
        match r {
            Ok(event) => answers_locally(effect@, event@),
            Err(same) => !effect@.is_local() && same@ == effect@,
        },
{
    match effect {
        Effect::HashPassword { password } => match hash_password(password.as_str()) {
            Ok(hash) => Ok(Event::PasswordHashed { hash }),
            Err(error) => Ok(Event::HashFailed { error }),
        },
        Effect::ReadClock => Ok(Event::Clock { now: unix_now() }),
        other => Err(other),
    }
}

/// The effect that answers the request with `reply`.
pub open spec fn respond(reply: ReplyView) -> EffectView {
    EffectView::Respond { reply }
}

} // verus!
