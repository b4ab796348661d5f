use vstd::prelude::*;
use vstd::string::StringExecFns;

use crate::request::blog_request::Sort;

verus! {

/// Admin filter over the blog listing.
pub struct AdminBlogFilter {
    pub page: i64,
    pub sort: Sort,
    pub category: Option<i64>,
    pub start: Option<i64>,
    pub end: Option<i64>,
    pub original: Option<bool>,
    pub topic: Option<i64>,
    pub keyword: Option<String>,
}

/// Admin filter over the file, category, tag and topic listings.
pub struct OtherAdminFilter {
    pub page: i64,
    pub sort: FileSort,
    pub deleted: bool,
    pub start: Option<i64>,
    pub end: Option<i64>,
    pub keyword: Option<String>,
}

/// Toggles whether a file is publicly served.
pub struct UpdatePublicRequest {
    pub is_pub: bool,
    pub id: i64,
}

/// Changes a user's role.
pub struct UpdateRole {
    pub role: String,
    pub username: String,
}

/// Replaces a chat credential.
pub struct UpdateGpt {
    pub t: String,
    pub keyword: String,
}

/// Which stored cookie to replace.
pub enum CookieType {
    MUSIC,
    BILI,
    XHS,
}

/// Replaces one stored cookie.
pub struct UpdateCookie {
    pub t: CookieType,
    pub cookie: String,
}

/// Sort modes of the admin file listing.
#[derive(PartialEq, Eq, Structural, Clone, Copy)]
pub enum FileSort {
    CREATE,
    BACK,
    SIZE,
    SBACK,
}

/// The ORDER BY column and direction of a file sort mode.
pub open spec fn file_sort_order_suffix(sort: FileSort) -> Seq<char> {
    match sort {
        FileSort::CREATE => "create_at desc"@,
        FileSort::BACK => "create_at asc"@,
        FileSort::SIZE => "size desc"@,
        FileSort::SBACK => "size asc"@,
    }
}

impl FileSort {
    pub fn to_order_by_string(&self, prefix: String) -> (r: String)
        ensures
            r@ == prefix@ + file_sort_order_suffix(*self),
    {
        match self {
            FileSort::CREATE => prefix.concat("create_at desc"),
            FileSort::BACK => prefix.concat("create_at asc"),
            FileSort::SIZE => prefix.concat("size desc"),
            FileSort::SBACK => prefix.concat("size asc"),
        }
    }
}

} // verus!
