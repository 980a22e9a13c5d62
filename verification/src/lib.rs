//! A URL shortener: a registry of short links with redirect counters, and the
//! commands and queries that act on it.

pub mod commands;
pub mod laws;
pub mod queries;
pub mod registry;
pub mod service;
pub mod slug;
pub mod store;
pub mod types;
pub mod url;

pub use crate::commands::CommandHandler;
pub use crate::queries::QueryHandler;
pub use crate::service::UrlShortenerService;
pub use crate::types::{LinkView, ShortLink, ShortenerError, Slug, Stats, StatsView, Url};
pub use crate::url::validate_url;
