//! Core of the fofo forum backend: a write-coalescing batch queue engine,
//! the forum's data model and configuration, and the legality rules for
//! user input.
pub mod api;
pub mod channel_cache;
pub mod config;
pub mod content;
pub mod legality;
pub mod list_codec;
pub mod meta;
pub mod model;
pub mod request_client;
pub mod text;
