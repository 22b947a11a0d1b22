//! Fetch-and-extract core of a marketplace client.
//!
//! Search URLs are built from validated parameters, item documents (JSON
//! or HTML) are turned into one canonical item shape, and the pacing and
//! fallback decisions of the fetch pipeline are taken here; the caller
//! performs the requests.

pub mod text;
pub mod urlenc;
pub mod models;
pub mod error;
pub mod query;
pub mod count;
pub mod dom;
pub mod html;
pub mod fetch;
