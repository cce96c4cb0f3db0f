//! What a request is answered with: a status and a body, before either is
//! put on the wire.

use vstd::prelude::*;
use crate::models::{listed_post_views, user_views, PostData, PostView, PostWithUser, PostWithUserView,
    UserData, UserDataView};

verus! {

/// The statuses with which the service answers.
#[derive(Debug, Clone, Copy, PartialEq, Eq, Structural)]
pub enum Status {
    Success,
    Created,
    BadRequest,
    Unauthorized,
    Forbidden,
    NotFound,
    InternalServerError,
}

impl Status {
    /// The status as a number.
    pub open spec fn number(self) -> u16 {
        match self {
            Status::Success => 200,
            Status::Created => 201,
            Status::BadRequest => 400,
            Status::Unauthorized => 401,
            Status::Forbidden => 403,
            Status::NotFound => 404,
            Status::InternalServerError => 500,
        }
    }

    /// The status as a number.
    pub fn code(self) -> (code: u16)
        ensures
            code == self.number(),
    {
        match self {
            Status::Success => 200,
            Status::Created => 201,
            Status::BadRequest => 400,
            Status::Unauthorized => 401,
            Status::Forbidden => 403,
            Status::NotFound => 404,
            Status::InternalServerError => 500,
        }
    }

    /// Whether the status blames the request: 400 to 499.
    pub open spec fn is_client_error(self) -> bool {
        400 <= self.number() < 500
    }
}

/// The body of an answer.
#[derive(Debug, Clone, PartialEq, Eq)]
pub enum Body {
    /// A flag and a message.
    Message { success: bool, message: String },
    /// A failure with the detail that the failing part reported.
    Failure { message: String, error: String },
    /// One post, with a message where the request changed something.
    Post { message: Option<String>, post: PostData },
    /// A page of posts and the number of all posts.
    Posts { posts: Vec<PostWithUser>, total_post: i64 },
    /// A page of users and the number of all users.
    Users { total_users: i64, users: Vec<UserData> },
    /// One user.
    User { user: UserData },
    /// A fresh session token.
    Token { message: String, token: String },
}

/// The body of an answer, as contracts see it.
pub ghost enum BodyView {
    Message { success: bool, message: Seq<char> },
    Failure { message: Seq<char>, error: Seq<char> },
    Post { message: Option<Seq<char>>, post: PostView },
    Posts { posts: Seq<PostWithUserView>, total_post: i64 },
    Users { total_users: i64, users: Seq<UserDataView> },
    User { user: UserDataView },
    Token { message: Seq<char>, token: Seq<char> },
}

impl View for Body {
    type V = BodyView;

    open spec fn view(&self) -> BodyView {
        match *self {
            Body::Message { success, message } => BodyView::Message { success, message: message@ },
            Body::Failure { message, error } => BodyView::Failure { message: message@, error: error@ },
            Body::Post { message, post } => BodyView::Post {
                message: match message {
                    Some(text) => Some(text@),
                    None => None,
                },
                post: post@,
            },
            Body::Posts { posts, total_post } => BodyView::Posts {
                posts: listed_post_views(posts@),
                total_post,
            },
            Body::Users { total_users, users } => BodyView::Users { total_users, users: user_views(users@) },
            Body::User { user } => BodyView::User { user: user@ },
            Body::Token { message, token } => BodyView::Token { message: message@, token: token@ },
        }
    }
}

/// An answer: a status and a body.
#[derive(Debug, Clone, PartialEq, Eq)]
pub struct Reply {
    pub status: Status,
    pub body: Body,
}

/// An answer, as contracts see it.
pub ghost struct ReplyView {
    pub status: Status,
    pub body: BodyView,
}

impl View for Reply {
    type V = ReplyView;

    open spec fn view(&self) -> ReplyView {
        ReplyView { status: self.status, body: self.body@ }
    }
}

/// The answer that refuses a request with `message`.
pub open spec fn refused(status: Status, message: Seq<char>) -> ReplyView {
    ReplyView { status, body: BodyView::Message { success: false, message } }
}

/// The answer that reports success with `message`.
pub open spec fn succeeded(status: Status, message: Seq<char>) -> ReplyView {
    ReplyView { status, body: BodyView::Message { success: true, message } }
}

/// The answer that reports a failure with its detail.
pub open spec fn failed(status: Status, message: Seq<char>, error: Seq<char>) -> ReplyView {
    ReplyView { status, body: BodyView::Failure { message, error } }
}

impl ReplyView {
    /// Whether the answer reports success.
    pub open spec fn is_success(self) -> bool {
        self.status == Status::Success || self.status == Status::Created
    }
}

impl Reply {
    /// Refuses a request with `message`.
    pub fn refuse(status: Status, message: &str) -> (reply: Reply)
        ensures
            reply@ == refused(status, message@),
    {
        Reply { status, body: Body::Message { success: false, message: message.to_owned() } }
    }

    /// Refuses a request with a message that was made for it.
    pub fn refuse_with(status: Status, message: String) -> (reply: Reply)
        ensures
            reply@ == refused(status, message@),
    {
        Reply { status, body: Body::Message { success: false, message } }
    }

    /// Reports success with `message`.
    pub fn succeed(status: Status, message: &str) -> (reply: Reply)
        ensures
            reply@ == succeeded(status, message@),
    {
        Reply { status, body: Body::Message { success: true, message: message.to_owned() } }
    }

    /// Reports a failure with the detail that the failing part gave.
    pub fn fail(status: Status, message: &str, error: String) -> (reply: Reply)
        ensures
            reply@ == failed(status, message@, error@),
    {
        Reply { status, body: Body::Failure { message: message.to_owned(), error } }
    }
}

} // verus!
