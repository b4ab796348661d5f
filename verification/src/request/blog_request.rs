use vstd::prelude::*;
use vstd::string::StringExecFns;

use crate::common::is_image_url;
use crate::trusted::image_url_match;

verus! {

/// The sort mode requested when none is named.
pub fn default_sort() -> (r: Sort)
    ensures
        r == Sort::CREATE,
{
    Sort::CREATE
}

/// The category filter requested when none is named: no filter.
pub fn default_cid() -> (r: i64)
    ensures
        r == -1,
{
    -1
}

/// Query of one public blog listing page.
pub struct BlogFindRequest {
    pub page: i64,
    pub cid: i64,
    pub sort: Sort,
}

/// Sort modes of the blog listings.
#[derive(PartialEq, Eq, Structural, Clone, Copy)]
pub enum Sort {
    CREATE,
    UPDATE,
    EYE,
    LIKE,
    BACK,
}

/// The ORDER BY column and direction of a sort mode.
pub open spec fn sort_order_suffix(sort: Sort) -> Seq<char> {
    match sort {
        Sort::CREATE => "create_at desc"@,
        Sort::UPDATE => "update_at desc"@,
        Sort::EYE => "eye_count desc"@,
        Sort::LIKE => "like_count desc"@,
        Sort::BACK => "create_at asc"@,
    }
}

impl Sort {
    pub fn to_order_by_string(&self, prefix: String) -> (r: String)
        ensures
            r@ == prefix@ + sort_order_suffix(*self),
    {
        match self {
            Sort::CREATE => prefix.concat("create_at desc"),
            Sort::UPDATE => prefix.concat("update_at desc"),
            Sort::EYE => prefix.concat("eye_count desc"),
            Sort::LIKE => prefix.concat("like_count desc"),
            Sort::BACK => prefix.concat("create_at asc"),
        }
    }
}

/// A date range over the archive, in epoch milliseconds.
pub struct ArchiveRange(pub i64, pub i64, pub i64);

/// The archive start bound requested when none is named.
pub fn default_start_date() -> (r: i64)
    ensures
        r == 8,
{
    8
}

/// The archive end bound requested when none is named.
pub fn default_end_date() -> (r: i64)
    ensures
        r == 8,
{
    8
}

/// Query of one archive listing page, bounds in epoch milliseconds.
pub struct ArchiveRangeRequest {
    pub page: i64,
    pub start: i64,
    pub end: i64,
}

impl ArchiveRangeRequest {
    /// The closed range queried: the end bound is pushed one day out.
    pub fn get_range_request(&self) -> (r: ArchiveRange)
        requires
            self.end + 86400000 <= i64::MAX,
        ensures
            r.0 == self.page,
            r.1 == self.start,
            r.2 == self.end + 86400000,
    {
        ArchiveRange(self.page, self.start, self.end + 86400000)
    }
}

/// Query of one page of a user's own blogs.
pub struct GetUserBlogRequest {
    pub page: i64,
    pub sort: Sort,
}

/// Query against the full-text search index.
pub struct SearchQueryRequest {
    pub page: i64,
    pub keyword: String,
}

/// Fields of a post to create or update.
pub struct BlogRequest {
    pub id: Option<i64>,
    pub title: String,
    pub description: String,
    pub content: String,
    pub source_url: String,
    pub cover_image: String,
    pub tags: Vec<i64>,
    pub topic: Option<i64>,
    pub category: Option<i64>,
}

/// The validation verdict on a [`BlogRequest`]: the first failing rule's
/// message, or nothing when all rules pass.
pub open spec fn blog_request_error(
    title: Seq<char>,
    description: Seq<char>,
    content: Seq<char>,
    cover_image: Seq<char>,
    topic: Option<i64>,
    category: Option<i64>,
) -> Option<Seq<char>> {
    if title.len() < 1 || title.len() > 50 {
        Some("博客标题不能小于1个字符并且不能大于50个字符"@)
    } else if description.len() < 1 || description.len() > 200 {
        Some("博客简介不能小于1个字符并且不能大于200个字符"@)
    } else if content.len() == 0 {
        Some("博客内容不能为空"@)
    } else if !image_url_match(cover_image) {
        Some("这不是一个图片链接"@)
    } else if topic is None && category is None {
        Some("分类和专题要选择一个"@)
    } else {
        None
    }
}

impl BlogRequest {
    /// The first validation rule the request breaks, if any.
    pub fn check(&self) -> (r: Option<String>)
        ensures
            match r {
                Some(m) => blog_request_error(
                    self.title@,
                    self.description@,
                    self.content@,
                    self.cover_image@,
                    self.topic,
                    self.category,
                ) == Some(m@),
                None => blog_request_error(
                    self.title@,
                    self.description@,
                    self.content@,
                    self.cover_image@,
                    self.topic,
                    self.category,
                ) is None,
            },
    {
        let title_len = self.title.as_str().unicode_len();
        let desc_len = self.description.as_str().unicode_len();
        if title_len < 1 || title_len > 50 {
            Some("博客标题不能小于1个字符并且不能大于50个字符".to_owned())
        } else if desc_len < 1 || desc_len > 200 {
            Some("博客简介不能小于1个字符并且不能大于200个字符".to_owned())
        } else if self.content.as_str().is_empty() {
            Some("博客内容不能为空".to_owned())
        } else if !is_image_url(self.cover_image.as_str()) {
            Some("这不是一个图片链接".to_owned())
        } else if self.topic.is_none() && self.category.is_none() {
            Some("分类和专题要选择一个".to_owned())
        } else {
            None
        }
    }
}

} // verus!
