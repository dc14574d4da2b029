//! A minimal static-file HTTP/1.0 responder: one request line in, one
//! response out.
//!
//! The functions here are verified against their contracts, but for three
//! that are trusted: `http_code_text` and `http_canonical_reason` in
//! `status`, which call the `http` crate, and `local_time_text` in `request`,
//! which calls `chrono`. Their contracts are believed, not proved.

pub mod text;
pub mod status;
pub mod content_type;
pub mod request;
pub mod response;
pub mod handler;
