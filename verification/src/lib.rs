//! Credential and verification management for a forum backend: password
//! hashing, signed session tokens, one-time-code challenges and the guard that
//! lets a request in once its token has been checked.
//!
//! The library decides and computes; it opens no connection. What has to be
//! read from or written to the cache, the store and the mail transport it asks
//! of the program around it, step by step (see [`flow`]).

pub mod auth_middleware;
pub mod common;
pub mod flow;
pub mod model;
pub mod repository;
pub mod route;
pub mod service;
