//! # instagram_scraper_rs
//!
//! A client library for a social-media platform's undocumented web API.
//! The session/authentication state machine, the cursor-based pagination,
//! the request builders and the response decoders are verified; the HTTP
//! transport itself is left to the embedding application.

mod errors;
pub mod paging;
pub mod requests;
pub mod session;
pub mod text;
mod types;

pub use errors::{InstagramScraperError, InstagramScraperResult};
pub use session::Session;
pub use types::{Authentication, Comment, FollowData, Post, Stories, Story, StorySource, User};
