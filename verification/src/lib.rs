//! Content assembly for seed-grant proposal documents.
//!
//! A [`models::Submission`] is turned into an ordered list of content blocks
//! (a cover page and a two-section outline) and a budget table. Every
//! function is total: missing data degrades to an empty display string.

pub mod budget;
pub mod content;
pub mod document;
pub mod formatter;
pub mod models;
pub mod page1;
pub mod page2;
pub mod pipeline;
pub mod text;
pub mod utils;
