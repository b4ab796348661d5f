//! Model of the key-value store underneath the cache layer.
//!
//! The store keeps one typed section per cache entity kind of the key
//! schema: the fixed singleton keys, the hashes keyed by id, and the key
//! families keyed by strings. A real key-value backend sits behind the
//! same operations in the surrounding application; the library states and
//! proves the cache protocol over this model.

use vstd::prelude::*;

use crate::maps::{IdMap, StrMap};
use crate::models::blogs::{BlogContentVo, BlogVo, RecommendBlogVo, SimpleBlogVo};
use crate::models::category::CategoryVo;
use crate::models::tag::TagVo;
use crate::models::topic::SimpleTopicVo;
use crate::models::user::UserVo;
use crate::page_info::PageInfo;
use crate::models::topic::TopicVo;
use crate::website_info::BlogConfigInfo;

verus! {

/// A cached value together with the second at which it lapses.
///
/// A read at time `now` sees the value only while `now < expires_at`.
pub struct Expiring<T> {
    pub value: T,
    pub expires_at: u64,
}

impl<T> Expiring<T> {
    /// The entry is still visible at `now`.
    pub open spec fn fresh(&self, now: u64) -> bool {
        now < self.expires_at
    }
}

/// The cache sections, one per entity kind of the key schema.
pub struct KvStore {
    /// Top posts by view count; passive expiry only.
    pub hot_blog: Option<Expiring<Vec<SimpleBlogVo>>>,
    /// Most recent posts.
    pub latest_blog: Option<Expiring<Vec<SimpleBlogVo>>>,
    /// Curated fixed-size recommended set; no expiry.
    pub recommend_blog: Option<Vec<RecommendBlogVo>>,
    /// Site configuration blob; no expiry.
    pub website_config: Option<BlogConfigInfo>,
    /// Full category list; no expiry.
    pub category_list: Option<Vec<CategoryVo>>,
    /// First page of the topic listing.
    pub first_page_topic: Option<Expiring<PageInfo<TopicVo>>>,
    /// Set backing the random tag sample; empty means unpopulated.
    pub random_tags: Vec<TagVo>,
    /// Post content by id; `None` records a confirmed-absent post.
    pub blog_map: IdMap<Option<BlogContentVo>>,
    /// Pending view-count totals by post id, drained by the flush.
    pub eye_count_map: IdMap<i64>,
    /// In-progress draft content by user id.
    pub save_blog_map: IdMap<String>,
    /// Tag lookup by id; only hits are cached.
    pub tag_map: IdMap<TagVo>,
    /// Topic lookup by id; `None` records a confirmed-absent topic.
    pub topic_map: IdMap<Option<SimpleTopicVo>>,
    /// Listing pages by composite key (page, sort, category filter).
    pub page_map: StrMap<Expiring<PageInfo<BlogVo>>>,
    /// Cached profiles by username.
    pub user_info: StrMap<Expiring<Option<UserVo>>>,
    /// The single active session token per username.
    pub user_token: StrMap<Expiring<String>>,
    /// Pending email verification codes.
    pub email_code: StrMap<Expiring<String>>,
}

impl KvStore {
    /// All hash sections have pairwise-distinct keys.
    pub open spec fn wf(&self) -> bool {
        &&& self.blog_map.wf()
        &&& self.eye_count_map.wf()
        &&& self.save_blog_map.wf()
        &&& self.tag_map.wf()
        &&& self.topic_map.wf()
        &&& self.page_map.wf()
        &&& self.user_info.wf()
        &&& self.user_token.wf()
        &&& self.email_code.wf()
    }

    /// The state of the store right after a restart: every read misses.
    pub fn new() -> (r: KvStore)
        ensures
            r.wf(),
            r.hot_blog is None,
            r.latest_blog is None,
            r.recommend_blog is None,
            r.website_config is None,
            r.category_list is None,
            r.first_page_topic is None,
            r.random_tags@.len() == 0,
            r.blog_map@ == Map::<int, Option<BlogContentVo>>::empty(),
            r.eye_count_map@ == Map::<int, i64>::empty(),
            r.save_blog_map@ == Map::<int, String>::empty(),
            r.tag_map@ == Map::<int, TagVo>::empty(),
            r.topic_map@ == Map::<int, Option<SimpleTopicVo>>::empty(),
            r.page_map@ == Map::<Seq<char>, Expiring<PageInfo<BlogVo>>>::empty(),
            r.user_info@ == Map::<Seq<char>, Expiring<Option<UserVo>>>::empty(),
            r.user_token@ == Map::<Seq<char>, Expiring<String>>::empty(),
            r.email_code@ == Map::<Seq<char>, Expiring<String>>::empty(),
    {
        KvStore {
            hot_blog: None,
            latest_blog: None,
            recommend_blog: None,
            website_config: None,
            category_list: None,
            first_page_topic: None,
            random_tags: Vec::new(),
            blog_map: IdMap::new(),
            eye_count_map: IdMap::new(),
            save_blog_map: IdMap::new(),
            tag_map: IdMap::new(),
            topic_map: IdMap::new(),
            page_map: StrMap::new(),
            user_info: StrMap::new(),
            user_token: StrMap::new(),
            email_code: StrMap::new(),
        }
    }
}

} // verus!
