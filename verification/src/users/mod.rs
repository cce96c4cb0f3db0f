//! The request pipelines for users.

pub mod login;
pub mod password;
pub mod read;
pub mod register;
pub mod update;
