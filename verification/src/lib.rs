//! Decision logic of a small multi-user content service: field validation,
//! credential and token handling, the authentication gate, and the request
//! pipelines for users and posts, each stated with a contract and verified.

pub mod auth;
pub mod credentials;
pub mod flow;
pub mod media;
pub mod models;
pub mod multipart;
pub mod paging;
pub mod posts;
pub mod reply;
pub mod text;
pub mod token;
pub mod users;
pub mod validation;

pub use auth::{AuthMiddleware, AuthMiddlewareFactory};
pub use media::{save_multiple_images, save_profile_image};
pub use models::{ChangePasswordForm, Claims, LoginRequest, NewPost, NewUser, Post, PostData, PostWithUser,
    UpdatePostFields, User, UserData};
pub use posts::delete::delete_post;
pub use posts::read::{get_all_posts, get_post_by_id};
pub use posts::update::update_post;
pub use posts::upload::upload_post;
pub use users::login::login_user;
pub use users::password::change_password;
pub use users::read::{get_all_users, get_user_by_id};
pub use users::register::register_user;
pub use users::update::update_user;
pub use validation::Validator;
