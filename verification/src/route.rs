//! The handlers, one per route.

pub mod topic_route;
pub mod user_route;
