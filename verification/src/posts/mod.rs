//! The request pipelines for posts.

pub mod delete;
pub mod read;
pub mod update;
pub mod upload;
