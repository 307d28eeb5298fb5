//! Plain data carried between the HTTP layer and the credential logic.

pub mod star;
pub mod topic;
pub mod user;
