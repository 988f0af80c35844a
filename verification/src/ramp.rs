//! The card and expense API.

pub mod types;
