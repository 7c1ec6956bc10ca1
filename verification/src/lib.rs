//! Smolbin: a small pastebin that also shortens links.
//!
//! The library holds the rules of the service: what a paste is, how the
//! form on the home page is checked, how an expiry such as `"1w 3d"` is
//! read, how a new paste gets its identifier, and what a lookup answers.
//! Storage, HTTP and the browser live in the application around it.

pub mod datatypes;
pub mod text;
pub mod expiry;
pub mod form;
pub mod api;
pub mod pages;
