//! Inbound request shapes and their validation rules.

pub mod admin_request;
pub mod blog_request;
pub mod email_request;
pub mod user_request;
