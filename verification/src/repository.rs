//! What is asked of the relational store.

pub mod topic_repository;
