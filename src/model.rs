//! The forum's data model.
pub mod category;
pub mod comment;
pub mod group;
pub mod like;
pub mod notification;
pub mod object;
pub mod post;
pub mod user;
pub mod verification;
