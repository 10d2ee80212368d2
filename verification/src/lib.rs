//! A feed reader's core: an ordered store of named feed subscriptions, and the
//! steps that turn the outcome of one HTTP GET into a feed document or a
//! typed error.

pub mod decoder;
pub mod error;
pub mod feed;
pub mod fetch;
pub mod session;
pub mod store;
