//! Request and response shapes of the forum's API, and their checks.
pub mod category;
pub mod comment;
pub mod error;
pub mod group;
pub mod like;
pub mod notification;
pub mod post;
pub mod server;
pub mod storage;
pub mod user;
pub mod util;
pub mod verification;
