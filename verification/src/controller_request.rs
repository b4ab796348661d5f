//! Small query shapes the transport layer decodes and hands in.

use vstd::prelude::*;

verus! {

/// Whether a file delete bypasses the soft-delete step.
#[derive(Debug)]
pub struct ForceDeleteFile {
    pub force: bool,
}

/// Which day's log to show, and whether to download it.
#[derive(Debug)]
pub struct InfoDate {
    pub date: String,
    pub download: Option<bool>,
}

/// The draft content a user asks to keep.
#[derive(Debug)]
pub struct GetSaveEditContent {
    pub content: String,
}

/// Name of a category to create.
#[derive(Debug)]
pub struct AddCategory {
    pub name: String,
}

/// Whether an upload is publicly served.
#[derive(Debug)]
pub struct UploadReq {
    pub is_pub: bool,
}

/// Query of one page of a user's files.
#[derive(Debug)]
pub struct FileFindRequest {
    pub page: i64,
    pub keyword: Option<String>,
    pub sort: String,
}

/// Name of a tag to create.
#[derive(Debug)]
pub struct AddTag {
    pub name: String,
}

/// Query of one topic listing page.
#[derive(Debug)]
pub struct TopicByPage {
    pub page: i64,
}

/// Query of one page of a topic's or tag's blogs.
#[derive(Debug)]
pub struct TopicOrTagBlogByPage {
    pub page: i64,
    pub t_id: i64,
}

/// Username to look up.
#[derive(Debug)]
pub struct GetUserQuery {
    pub username: String,
}

/// Address to send a verification code to.
#[derive(Debug)]
pub struct SendEmailRequest {
    pub email: String,
}

/// A chat message for the relay.
#[derive(Debug)]
pub struct ChatQuery {
    pub message: String,
}

/// Callback name of the address-origin probe.
#[derive(Debug)]
pub struct ChinaIpQuery {
    pub callback: String,
}

} // verus!
