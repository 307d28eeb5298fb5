//! What the handlers decide about users.

pub mod user_service;
