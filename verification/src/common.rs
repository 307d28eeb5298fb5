//! Shared building blocks: constants, the error taxonomy, the response
//! envelope, the syntax of email addresses, the discipline of the cache, and
//! the functions on passwords, tokens and one-time codes.

pub mod api;
pub mod cache;
pub mod constant;
pub mod email;
pub mod err;
pub mod primitives;
pub mod util;
