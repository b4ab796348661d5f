//! The blog-side cache manager: hot/latest/recommended sets, post
//! content with confirmed-absent markers, draft buffers, and the pending
//! view-count map with its atomic seed-or-increment step.

use vstd::prelude::*;

use crate::cloning::clone_vec_exact;
use crate::kv_store::{Expiring, KvStore};
use crate::models::blogs::{BlogContentVo, RecommendBlogVo, SimpleBlogVo};
use crate::redis_keys::{HOT_BLOG_KEY_EXPIRE, LATEST_BLOG_KEY_EXPIRE};

verus! {

/// The counter value one view of `id` writes: a present counter moves
/// up by one; an absent one is seeded from the fallback plus the view.
pub open spec fn next_view_count(m: Map<int, i64>, default_count: i64, id: i64) -> int {
    if m.contains_key(id as int) {
        m[id as int] + 1
    } else {
        default_count + 1
    }
}

/// Cache operations of the blog entities, over an injected store.
pub struct BlogCache {}

impl BlogCache {
    pub fn new() -> BlogCache {
        BlogCache {}
    }

    /// Overwrites the hot blog set; it lapses after its fixed TTL.
    /// Writing an absent value unsets the entry.
    pub fn set_hot_blog(
        &self,
        store: &mut KvStore,
        blogs: Option<&Vec<SimpleBlogVo>>,
        now: u64,
    ) -> (r: bool)
        requires
            now + HOT_BLOG_KEY_EXPIRE <= u64::MAX,
        ensures
            r,
            *final(store) == (KvStore { hot_blog: final(store).hot_blog, ..*old(store) }),
            match blogs {
                Some(v) => final(store).hot_blog matches Some(e) && e.value@ == v@
                    && e.expires_at == now + HOT_BLOG_KEY_EXPIRE,
                None => final(store).hot_blog is None,
            },
    {
        proof {
            assert forall|x: SimpleBlogVo, y: SimpleBlogVo|
                call_ensures(SimpleBlogVo::clone, (&x,), y) implies y == x by {}
        }
        match blogs {
            Some(v) => {
                store.hot_blog = Some(
                    Expiring { value: clone_vec_exact(v), expires_at: now + HOT_BLOG_KEY_EXPIRE },
                );
            },
            None => {
                store.hot_blog = None;
            },
        }
        true
    }

    /// The hot blog set, while fresh at `now`.
    pub fn get_hot_blog(&self, store: &KvStore, now: u64) -> (r: Option<Vec<SimpleBlogVo>>)
        ensures
            match r {
                Some(v) => store.hot_blog matches Some(e) && e.fresh(now) && v@ == e.value@,
                None => store.hot_blog matches Some(e) ==> !e.fresh(now),
            },
    {
        proof {
            assert forall|x: SimpleBlogVo, y: SimpleBlogVo|
                call_ensures(SimpleBlogVo::clone, (&x,), y) implies y == x by {}
        }
        match &store.hot_blog {
            Some(e) => {
                if now < e.expires_at {
                    Some(clone_vec_exact(&e.value))
                } else {
                    None
                }
            },
            None => None,
        }
    }

    /// Overwrites the latest blog set; it lapses after its fixed TTL.
    /// Writing an absent value unsets the entry.
    pub fn set_latest_blog(
        &self,
        store: &mut KvStore,
        blogs: Option<&Vec<SimpleBlogVo>>,
        now: u64,
    ) -> (r: bool)
        requires
            now + LATEST_BLOG_KEY_EXPIRE <= u64::MAX,
        ensures
            r,
            *final(store) == (KvStore { latest_blog: final(store).latest_blog, ..*old(store) }),
            match blogs {
                Some(v) => final(store).latest_blog matches Some(e) && e.value@ == v@
                    && e.expires_at == now + LATEST_BLOG_KEY_EXPIRE,
                None => final(store).latest_blog is None,
            },
    {
        proof {
            assert forall|x: SimpleBlogVo, y: SimpleBlogVo|
                call_ensures(SimpleBlogVo::clone, (&x,), y) implies y == x by {}
        }
        match blogs {
            Some(v) => {
                store.latest_blog = Some(
                    Expiring {
                        value: clone_vec_exact(v),
                        expires_at: now + LATEST_BLOG_KEY_EXPIRE,
                    },
                );
            },
            None => {
                store.latest_blog = None;
            },
        }
        true
    }

    /// The latest blog set, while fresh at `now`.
    pub fn get_latest_blog(&self, store: &KvStore, now: u64) -> (r: Option<Vec<SimpleBlogVo>>)
        ensures
            match r {
                Some(v) => store.latest_blog matches Some(e) && e.fresh(now) && v@ == e.value@,
                None => store.latest_blog matches Some(e) ==> !e.fresh(now),
            },
    {
        proof {
            assert forall|x: SimpleBlogVo, y: SimpleBlogVo|
                call_ensures(SimpleBlogVo::clone, (&x,), y) implies y == x by {}
        }
        match &store.latest_blog {
            Some(e) => {
                if now < e.expires_at {
                    Some(clone_vec_exact(&e.value))
                } else {
                    None
                }
            },
            None => None,
        }
    }

    /// Caches the content found for `id` — an absent result too, as a
    /// confirmed-absent marker.
    pub fn set_blog_info(&self, store: &mut KvStore, id: i64, blog: &Option<BlogContentVo>) -> (r:
        bool)
        requires
            old(store).wf(),
        ensures
            r,
            final(store).wf(),
            *final(store) == (KvStore { blog_map: final(store).blog_map, ..*old(store) }),
            final(store).blog_map@.dom() == old(store).blog_map@.dom().insert(id as int),
            match blog {
                Some(b) => final(store).blog_map@[id as int] matches Some(c) && c@ == b@,
                None => final(store).blog_map@[id as int] is None,
            },
            forall|k: int|
                old(store).blog_map@.contains_key(k) && k != id as int
                    ==> final(store).blog_map@[k] == old(store).blog_map@[k],
    {
        let copy: Option<BlogContentVo> = match blog {
            Some(b) => Some(b.clone()),
            None => None,
        };
        store.blog_map.insert(id, copy);
        proof {
            assert(final(store).blog_map@.dom() =~= old(store).blog_map@.dom().insert(id as int));
        }
        true
    }

    /// The cached verdict on `id`: present content, a confirmed-absent
    /// marker, or no entry at all.
    pub fn get_blog_info(&self, store: &KvStore, id: i64) -> (r: Option<Option<BlogContentVo>>)
        requires
            store.wf(),
        ensures
            match r {
                Some(cached) => store.blog_map@.contains_key(id as int) && (match cached {
                    Some(b) => store.blog_map@[id as int] matches Some(c) && b@ == c@,
                    None => store.blog_map@[id as int] is None,
                }),
                None => !store.blog_map@.contains_key(id as int),
            },
    {
        match store.blog_map.get(id) {
            Some(cached) => Some(
                match cached {
                    Some(b) => Some(b.clone()),
                    None => None,
                },
            ),
            None => None,
        }
    }

    /// Drops the cached content of `id` after a write to its row.
    pub fn delete_blog_info_by_id(&self, store: &mut KvStore, id: i64) -> (r: bool)
        requires
            old(store).wf(),
        ensures
            r,
            final(store).wf(),
            *final(store) == (KvStore { blog_map: final(store).blog_map, ..*old(store) }),
            final(store).blog_map@ == old(store).blog_map@.remove(id as int),
    {
        store.blog_map.remove(id);
        true
    }

    /// The atomic seed-or-increment step of the view counter: an absent
    /// id is seeded with `default_count + 1`, a present one is
    /// incremented by one; either way the new total is returned.
    pub fn increase_in_view(&self, store: &mut KvStore, default_count: i64, id: i64) -> (r: i64)
        requires
            old(store).wf(),
            old(store).eye_count_map@.contains_key(id as int) ==> old(
                store,
            ).eye_count_map@[id as int] < i64::MAX,
            default_count < i64::MAX,
        ensures
            final(store).wf(),
            *final(store) == (KvStore {
                eye_count_map: final(store).eye_count_map,
                ..*old(store)
            }),
            final(store).eye_count_map@ == old(store).eye_count_map@.insert(id as int, r),
            r == next_view_count(old(store).eye_count_map@, default_count, id),
    {
        let count: i64 = match store.eye_count_map.get(id) {
            Some(c) => *c + 1,
            None => default_count + 1,
        };
        store.eye_count_map.insert(id, count);
        count
    }

    /// Stores the draft a user is editing; true on success, which the
    /// store model always grants.
    pub fn set_save_edit_blog(&self, store: &mut KvStore, u_id: i64, content: &String) -> (r: bool)
        requires
            old(store).wf(),
        ensures
            final(store).wf(),
            *final(store) == (KvStore {
                save_blog_map: final(store).save_blog_map,
                ..*old(store)
            }),
            final(store).save_blog_map@ == old(store).save_blog_map@.insert(u_id as int, *content),
            r,
    {
        store.save_blog_map.insert(u_id, content.clone());
        true
    }

    /// The draft a user was editing, if any.
    pub fn get_save_edit_blog(&self, store: &KvStore, u_id: i64) -> (r: Option<String>)
        requires
            store.wf(),
        ensures
            match r {
                Some(s) => store.save_blog_map@.contains_key(u_id as int) && s == store
                    .save_blog_map@[u_id as int],
                None => !store.save_blog_map@.contains_key(u_id as int),
            },
    {
        match store.save_blog_map.get(u_id) {
            Some(s) => Some(s.clone()),
            None => None,
        }
    }

    /// The whole pending view-count map, as the flush reads it.
    pub fn get_blog_map_values(&self, store: &KvStore) -> (r: Vec<(i64, i64)>)
        requires
            store.wf(),
        ensures
            r@ == store.eye_count_map.entries@,
    {
        let mut r: Vec<(i64, i64)> = Vec::new();
        let n = store.eye_count_map.entries.len();
        let mut i: usize = 0;
        while i < n
            invariant
                i <= n,
                n == store.eye_count_map.entries@.len(),
                r@ == store.eye_count_map.entries@.subrange(0, i as int),
            decreases n - i,
        {
            let pair = (store.eye_count_map.entries[i].0, store.eye_count_map.entries[i].1);
            r.push(pair);
            proof {
                assert(r@ =~= store.eye_count_map.entries@.subrange(0, i + 1 as int));
            }
            i += 1;
        }
        proof {
            assert(store.eye_count_map.entries@.subrange(0, n as int)
                =~= store.eye_count_map.entries@);
        }
        r
    }

    /// The curated recommended set; empty when none was stored.
    pub fn get_recommend_blog(&self, store: &KvStore) -> (r: Vec<RecommendBlogVo>)
        ensures
            match store.recommend_blog {
                Some(v) => r@ == v@,
                None => r@.len() == 0,
            },
    {
        proof {
            assert forall|x: RecommendBlogVo, y: RecommendBlogVo|
                call_ensures(RecommendBlogVo::clone, (&x,), y) implies y == x by {}
        }
        match &store.recommend_blog {
            Some(v) => clone_vec_exact(v),
            None => Vec::new(),
        }
    }

    /// Overwrites the curated recommended set; no expiry.
    pub fn set_recommend_blog(&self, store: &mut KvStore, vec: &Vec<RecommendBlogVo>) -> (r: bool)
        ensures
            r,
            *final(store) == (KvStore {
                recommend_blog: final(store).recommend_blog,
                ..*old(store)
            }),
            final(store).recommend_blog matches Some(v) && v@ == vec@,
    {
        proof {
            assert forall|x: RecommendBlogVo, y: RecommendBlogVo|
                call_ensures(RecommendBlogVo::clone, (&x,), y) implies y == x by {}
        }
        store.recommend_blog = Some(clone_vec_exact(vec));
        true
    }
}

} // verus!
