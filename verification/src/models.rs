//! Entity types carried between the relational store, the cache, and callers.

pub mod blogs;
pub mod category;
pub mod file;
pub mod tag;
pub mod topic;
pub mod user;
