//! The key schema of the cache, in one place.
//!
//! Every key the cache touches is either one of these fixed names, or is
//! built by one of the key builders below, so the read and write paths
//! cannot drift apart.

use vstd::prelude::*;
use vstd::string::StringExecFns;

use crate::request::blog_request::Sort;
use crate::text::int_seq;
use crate::text::i64_to_string;

verus! {

/// Seconds in one minute.
pub const MIN: u64 = 60;

/// Seconds in one hour.
pub const HOUR: u64 = 60 * 60;

/// Seconds in one day.
pub const DAY: u64 = 60 * 60 * 24;

/// Prefix of the per-user profile keys.
pub const USER_INFO_KEY: &'static str = "USER-INFO:";

/// Key of the hot blog set.
pub const HOT_BLOG_KEY: &'static str = "HOT-BLOG";

/// Key of the latest blog set.
pub const LATEST_BLOG_KEY: &'static str = "LATEST-BLOG";

/// Key of the post-content hash.
pub const BLOG_MAP_KEY: &'static str = "BLOG-MAP";

/// Prefix of the email verification code keys.
pub const EMAIL_CODE_KEY: &'static str = "EMAIL-CODE:";

/// Key of the site configuration blob.
pub const BLOG_WEB_CONFIG: &'static str = "WEBSITE-CONFIG";

/// Key of the category list.
pub const CATEGORY_LIST_KEY: &'static str = "CATEGORY-LIST";

/// Key of the random tag sample set.
pub const RANDOM_TAG_KEY: &'static str = "RANDOM-TAG";

/// Key of the recommended blog set.
pub const RECOMMEND_BLOG_KEY: &'static str = "RECOMMEND-BLOG-KEY";

/// Key of the first topic listing page.
pub const FIRST_PAGE_TOPIC_KEY: &'static str = "FIRST-TOPIC-KEY";

/// Prefix of the listing-page keys; bulk invalidation deletes by it.
pub const BLOG_LIST_PAGE_INFO_KEY: &'static str = "BLOG-PAGE-INFO:";

/// Key of the topic lookup hash.
pub const TOPIC_MAP_KEY: &'static str = "TOPIC-MAP";

/// Key of the pending view-count hash.
pub const EYE_COUNT_MAP: &'static str = "BLOG_EYE_COUNT_MAP_KEY";

/// Key of the draft content hash.
pub const SAVE_BLOG_MAP: &'static str = "SAVE-BLOG-MAP";

/// Prefix of the per-user session token keys.
pub const USER_TOKEN_KEY: &'static str = "USER-TOKEN:";

/// Key of the tag lookup hash.
pub const TAG_MAP_KEY: &'static str = "TAG-MAP";

/// Listing pages lapse after six hours.
pub const BLOG_LIST_PAGE_INFO_EXPIRE: u64 = HOUR * 6;

/// Cached profiles lapse after thirty minutes.
pub const USER_INFO_KEY_EXPIRE: u64 = MIN * 30;

/// The hot blog set lapses after thirty minutes.
pub const HOT_BLOG_KEY_EXPIRE: u64 = MIN * 30;

/// The latest blog set lapses after three hours.
pub const LATEST_BLOG_KEY_EXPIRE: u64 = HOUR * 3;

/// Email verification codes lapse after one minute.
pub const EMAIL_CODE_KEY_EXPIRE: u64 = MIN * 1;

/// The first topic page lapses after eight hours.
pub const FIRST_PAGE_TOPIC_EXPIRE: u64 = HOUR * 8;

/// The key under which one user's profile is cached.
pub open spec fn user_info_key_view(username: Seq<char>) -> Seq<char> {
    USER_INFO_KEY@ + username
}

pub fn user_info_key(username: &String) -> (r: String)
    ensures
        r@ == user_info_key_view(username@),
{
    let mut r = USER_INFO_KEY.to_owned();
    r.append(username.as_str());
    r
}

/// The key under which one user's session token is stored.
pub open spec fn user_token_key_view(username: Seq<char>) -> Seq<char> {
    USER_TOKEN_KEY@ + username
}

pub fn user_token_key(username: &String) -> (r: String)
    ensures
        r@ == user_token_key_view(username@),
{
    let mut r = USER_TOKEN_KEY.to_owned();
    r.append(username.as_str());
    r
}

/// The key under which one address's email code is stored.
pub open spec fn email_code_key_view(address: Seq<char>) -> Seq<char> {
    EMAIL_CODE_KEY@ + address
}

pub fn email_code_key(address: &String) -> (r: String)
    ensures
        r@ == email_code_key_view(address@),
{
    let mut r = EMAIL_CODE_KEY.to_owned();
    r.append(address.as_str());
    r
}

/// The display name of a sort mode, as it appears in listing-page keys.
pub open spec fn sort_name_view(sort: Sort) -> Seq<char> {
    match sort {
        Sort::CREATE => "CREATE"@,
        Sort::UPDATE => "UPDATE"@,
        Sort::EYE => "EYE"@,
        Sort::LIKE => "LIKE"@,
        Sort::BACK => "BACK"@,
    }
}

pub fn sort_name(sort: &Sort) -> (r: &'static str)
    ensures
        r@ == sort_name_view(*sort),
{
    match sort {
        Sort::CREATE => "CREATE",
        Sort::UPDATE => "UPDATE",
        Sort::EYE => "EYE",
        Sort::LIKE => "LIKE",
        Sort::BACK => "BACK",
    }
}

/// The composite key of one listing page: prefix, page number, sort mode,
/// and category filter.
pub open spec fn page_info_key_view(page: i64, sort: Sort, cid: i64) -> Seq<char> {
    BLOG_LIST_PAGE_INFO_KEY@ + "_"@ + int_seq(page as int) + "_"@ + sort_name_view(sort) + "_"@
        + int_seq(cid as int)
}

pub fn page_info_key(page: i64, sort: &Sort, cid: i64) -> (r: String)
    ensures
        r@ == page_info_key_view(page, *sort, cid),
{
    let mut r = BLOG_LIST_PAGE_INFO_KEY.to_owned();
    r.append("_");
    let page_str = i64_to_string(page);
    r.append(page_str.as_str());
    r.append("_");
    r.append(sort_name(sort));
    r.append("_");
    let cid_str = i64_to_string(cid);
    r.append(cid_str.as_str());
    proof {
        assert(r@ =~= page_info_key_view(page, *sort, cid));
    }
    r
}

} // verus!
