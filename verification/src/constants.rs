use vstd::prelude::*;

verus! {

/// Paging constants of the public listings.
pub struct PageConstants;

/// Assorted fixed values of the platform.
pub struct Constant;

/// Role given to a freshly registered user.
pub const DEFAULT_ROLE_ID: i64 = 1;

/// Rows per public blog listing page.
pub const BLOG_PAGE_SIZE: i64 = 10;

/// Size of the hot blog set.
pub const HOT_BLOG_PAGE_SIZE: i64 = 10;

/// Rows per archive listing page.
pub const ARCHIVE_BLOG_PAGE_SIZE: i64 = 15;

/// Size of the latest blog set.
pub const LATEST_BLOG_PAGE_SIZE: i64 = 10;

/// Rows per user top-blog listing.
pub const USER_TOP_BLOG_PAGE_SIZE: i64 = 10;

/// Rows per search result page.
pub const SEARCH_BLOG_PAGE_SIZE: i64 = 10;

/// Size of the random tag sample.
pub const TAG_RANDOM_LIST_COUNT: usize = 20;

/// Rows per topic listing page.
pub const TOPIC_PAGE_COUNT: i64 = 20;

/// Rows per file listing page.
pub const FILE_PAGE_COUNT: i64 = 15;

/// Rows per admin blog listing page.
pub const ADMIN_BLOG_PAGE_COUNT: i64 = 10;

/// Rows per admin category or tag listing page.
pub const CATEGORY_ADMIN_PAGE_COUNT: i64 = 15;

/// Rows per admin topic listing page.
pub const TOPIC_ADMIN_PAGE_COUNT: i64 = 15;

/// Rows per admin file listing page.
pub const FILE_ADMIN_PAGE_COUNT: i64 = 15;

/// Page requested when the query names none.
pub fn default_page() -> (r: i64)
    ensures
        r == 1,
{
    1
}

} // verus!
