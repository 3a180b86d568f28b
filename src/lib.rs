//! Short links: slugs derived from URLs, and their lifecycle in a
//! time-limited key-value store.
pub mod grammar;
pub mod slug;
pub mod store;
pub mod short_url;
pub mod laws;
