//! Cache-aside consistency layer for a blog platform backend.
//!
//! The library models the coordination between a relational store (the
//! source of truth) and a key-value cache across the platform's entity
//! kinds: blog details, listing pages, hot/latest/recommended blog sets,
//! taxonomy lookup maps, view counters, and user session data.

pub mod admin_service;
pub mod blog_cache;
pub mod blog_service;
pub mod cache;
pub mod category_service;
pub mod cloning;
pub mod common;
pub mod config;
pub mod constants;
pub mod controller_request;
pub mod custom_error;
pub mod file_service;
pub mod gpt_service;
pub mod jwt;
pub mod kv_store;
pub mod laws;
pub mod maps;
pub mod models;
pub mod page_info;
pub mod redis_keys;
pub mod rel_store;
pub mod request;
pub mod result;
pub mod search_request;
pub mod tag_service;
pub mod text;
pub mod topic_service;
pub mod trusted;
pub mod user_cache;
pub mod user_service;
pub mod website_info;
