//! The blog service: read-through caching over the relational store,
//! invalidate-on-write, and the view-counter flush.

use vstd::prelude::*;

use crate::blog_cache::BlogCache;
use crate::cache::clear_page_info_keys;
use crate::custom_error::{E, Status};
use crate::kv_store::{Expiring, KvStore};
use crate::maps::IdMap;
use crate::models::blogs::{BlogContentVo, BlogVo, RecommendBlogVo, SimpleBlogVo};
use crate::page_info::PageInfo;
use crate::redis_keys::{
    page_info_key, page_info_key_view, HOT_BLOG_KEY_EXPIRE, HOUR, LATEST_BLOG_KEY_EXPIRE,
};
use crate::rel_store::RelStore;
use crate::request::blog_request::{blog_request_error, BlogFindRequest, BlogRequest};

verus! {

/// The cached entry of a listing key is present and fresh at `now`.
pub open spec fn page_cache_hit(store: KvStore, key: Seq<char>, now: u64) -> bool {
    store.page_map@.contains_key(key) && store.page_map@[key].fresh(now)
}

/// The last pending count recorded for `id`, if any.
pub open spec fn count_of(counts: Seq<(i64, i64)>, id: int) -> Option<i64>
    decreases counts.len(),
{
    if counts.len() == 0 {
        None
    } else if counts.last().0 as int == id {
        Some(counts.last().1)
    } else {
        count_of(counts.drop_last(), id)
    }
}


/// How one read of post `id` relates the states before (`s0`, `r0`) and
/// after (`s1`, `r1`) and its result: an invalid id touches nothing; a
/// cached verdict is served without a query; otherwise the store row is
/// fetched, cached — present or confirmed absent — and returned.
pub open spec fn blog_get_spec(
    s0: KvStore,
    r0: RelStore,
    s1: KvStore,
    r1: RelStore,
    res: Result<BlogContentVo, E>,
    id: i64,
) -> bool {
    &&& RelStore::same_data(r0, r1)
    &&& s1 == (KvStore { blog_map: s1.blog_map, ..s0 })
    &&& (id <= 0 ==> {
        &&& s1 == s0
        &&& r1 == r0
        &&& res matches Err(e) && e.code == Status::QUERY_OR_PARAMS_ERROR
    })
    &&& (id > 0 && s0.blog_map@.contains_key(id as int) ==> {
        &&& s1 == s0
        &&& r1.query_count == r0.query_count
        &&& (match s0.blog_map@[id as int] {
            Some(b) => res matches Ok(c) && c@ == b@,
            None => res matches Err(e) && e.code == Status::BLOG_NOT_FOUND_ERROR,
        })
    })
    &&& (id > 0 && !s0.blog_map@.contains_key(id as int) ==> {
        &&& r1.query_count == r0.query_count + 1
        &&& s1.blog_map@.dom() == s0.blog_map@.dom().insert(id as int)
        &&& (match r0.blog_row(id) {
            Some(row) => res matches Ok(c) && c@ == row && (s1.blog_map@[id as int] matches Some(
                c2,
            ) && c2@ == row),
            None => (res matches Err(e) && e.code == Status::BLOG_NOT_FOUND_ERROR)
                && s1.blog_map@[id as int] is None,
        })
    })
    &&& (forall|k: int|
        s0.blog_map@.contains_key(k) && k != id as int ==> s1.blog_map@.contains_key(k)
            && s1.blog_map@[k] == s0.blog_map@[k])
}


/// How one flush relates the states before (`s0`, `r0`) and after
/// (`s1`, `r1`): the drained map's total lands in each post's row, rows
/// without a pending count keep their view count, entries whose post no
/// longer exists are the only ones kept pending, and the content cache
/// is dropped.
pub open spec fn flush_spec(s0: KvStore, r0: RelStore, s1: KvStore, r1: RelStore) -> bool {
    &&& s1 == (KvStore { eye_count_map: s1.eye_count_map, blog_map: s1.blog_map, ..s0 })
    &&& r1 == (RelStore { blogs: r1.blogs, query_count: r1.query_count, ..r0 })
    &&& r1.query_count == r0.query_count + s0.eye_count_map.entries@.len()
    &&& s1.blog_map@ == Map::<int, Option<BlogContentVo>>::empty()
    &&& r1.blogs@.dom() == r0.blogs@.dom()
    &&& (forall|k: int|
        #![trigger r1.blogs@[k]]
        r0.blogs@.contains_key(k) ==> r1.blogs@[k]@ == (match count_of(
            s0.eye_count_map.entries@,
            k,
        ) {
            Some(v) => crate::rel_store::RelStore::with_eye_count(r0.blogs@[k], v),
            None => r0.blogs@[k]@,
        }))
    &&& (forall|k: int|
        #![trigger s1.eye_count_map@.contains_key(k)]
        s1.eye_count_map@.contains_key(k) <==> (s0.eye_count_map@.contains_key(k)
            && !r0.blogs@.contains_key(k)))
    &&& (forall|k: int|
        #![trigger s1.eye_count_map@[k]]
        s1.eye_count_map@.contains_key(k) ==> s1.eye_count_map@[k] == s0.eye_count_map@[k])
}


/// How one listing read relates the states before (`s0`, `r0`) and
/// after (`s1`, `r1`) and its result, for the request's composite key:
/// with the cache off the store answers; a fresh cached page answers
/// without a query; a miss queries, caches for the configured hours,
/// and answers.
pub open spec fn listing_get_spec(
    s0: KvStore,
    r0: RelStore,
    s1: KvStore,
    r1: RelStore,
    res: PageInfo<BlogVo>,
    request: BlogFindRequest,
    now: u64,
    page_cache_enabled: bool,
    cache_expire_hours: u64,
) -> bool {
    let key = page_info_key_view(request.page, request.sort, request.cid);
    &&& RelStore::same_data(r0, r1)
    &&& s1 == (KvStore { page_map: s1.page_map, ..s0 })
    &&& (!page_cache_enabled ==> {
        &&& s1 == s0
        &&& r1.query_count == r0.query_count + 1
        &&& res@ == r0.listing_result(key, request.page)
    })
    &&& (page_cache_enabled && page_cache_hit(s0, key, now) ==> {
        &&& s1 == s0
        &&& r1.query_count == r0.query_count
        &&& res@ == s0.page_map@[key].value@
    })
    &&& (page_cache_enabled && !page_cache_hit(s0, key, now) ==> {
        &&& r1.query_count == r0.query_count + 1
        &&& res@ == r0.listing_result(key, request.page)
        &&& s1.page_map@.dom() == s0.page_map@.dom().insert(key)
        &&& s1.page_map@[key].value@ == res@
        &&& s1.page_map@[key].expires_at == now + cache_expire_hours * HOUR
    })
}

/// Orchestrates the blog caches in front of the relational store.
pub struct BlogService {
    pub cache: BlogCache,
}

impl BlogService {
    pub fn new() -> BlogService {
        BlogService { cache: BlogCache::new() }
    }

    /// One listing page. With the page cache enabled, a fresh cached
    /// page is served as is; a miss queries the store and caches the
    /// result for the configured number of hours.
    pub fn get_blog_list_by_category(
        &self,
        store: &mut KvStore,
        rel: &mut RelStore,
        request: &BlogFindRequest,
        now: u64,
        page_cache_enabled: bool,
        cache_expire_hours: u64,
    ) -> (r: PageInfo<BlogVo>)
        requires
            old(store).wf(),
            old(rel).wf(),
            old(rel).query_count < u64::MAX,
            now + cache_expire_hours * HOUR <= u64::MAX,
        ensures
            final(store).wf(),
            final(rel).wf(),
            listing_get_spec(
                *old(store),
                *old(rel),
                *final(store),
                *final(rel),
                r,
                *request,
                now,
                page_cache_enabled,
                cache_expire_hours,
            ),
    {
        if !page_cache_enabled {
            return rel.find_page_category_list(request);
        }
        let key = page_info_key(request.page, &request.sort, request.cid);
        let hit: Option<PageInfo<BlogVo>> = match store.page_map.get(&key) {
            Some(e) => {
                if now < e.expires_at {
                    proof {
                        assert forall|x: BlogVo, y: BlogVo|
                            call_ensures(BlogVo::clone, (&x,), y) implies y == x by {}
                    }
                    Some(e.value.clone())
                } else {
                    None
                }
            },
            None => None,
        };
        match hit {
            Some(page) => page,
            None => {
                let result = rel.find_page_category_list(request);
                proof {
                    assert forall|x: BlogVo, y: BlogVo|
                        call_ensures(BlogVo::clone, (&x,), y) implies y == x by {}
                }
                let copy = result.clone();
                store.page_map.insert(
                    key,
                    Expiring { value: copy, expires_at: now + cache_expire_hours * HOUR },
                );
                proof {
                    assert(final(store).page_map@.dom() =~= old(store).page_map@.dom().insert(
                        page_info_key_view(request.page, request.sort, request.cid),
                    ));
                }
                result
            },
        }
    }

    /// The hot blog set: read-through with its fixed TTL.
    pub fn get_hot_blog(&self, store: &mut KvStore, rel: &mut RelStore, now: u64) -> (r: Vec<
        SimpleBlogVo,
    >)
        requires
            old(store).wf(),
            old(rel).wf(),
            old(rel).query_count < u64::MAX,
            now + HOT_BLOG_KEY_EXPIRE <= u64::MAX,
        ensures
            final(store).wf(),
            final(rel).wf(),
            RelStore::same_data(*old(rel), *final(rel)),
            *final(store) == (KvStore { hot_blog: final(store).hot_blog, ..*old(store) }),
            (old(store).hot_blog matches Some(e) && e.fresh(now)) ==> {
                &&& *final(store) == *old(store)
                &&& final(rel).query_count == old(rel).query_count
                &&& r@ == old(store).hot_blog->Some_0.value@
            },
            !(old(store).hot_blog matches Some(e) && e.fresh(now)) ==> {
                &&& final(rel).query_count == old(rel).query_count + 1
                &&& r@ == old(rel).hot_blogs@
                &&& final(store).hot_blog matches Some(e2) && e2.value@ == r@ && e2.expires_at
                    == now + HOT_BLOG_KEY_EXPIRE
            },
    {
        let hots_blog = self.cache.get_hot_blog(store, now);
        match hots_blog {
            Some(v) => v,
            None => {
                let hot_blogs = rel.get_hot_blogs();
                self.cache.set_hot_blog(store, Some(&hot_blogs), now);
                hot_blogs
            },
        }
    }

    /// The latest blog set: read-through with its fixed TTL.
    pub fn get_latest_blog(&self, store: &mut KvStore, rel: &mut RelStore, now: u64) -> (r: Vec<
        SimpleBlogVo,
    >)
        requires
            old(store).wf(),
            old(rel).wf(),
            old(rel).query_count < u64::MAX,
            now + LATEST_BLOG_KEY_EXPIRE <= u64::MAX,
        ensures
            final(store).wf(),
            final(rel).wf(),
            RelStore::same_data(*old(rel), *final(rel)),
            *final(store) == (KvStore { latest_blog: final(store).latest_blog, ..*old(store) }),
            (old(store).latest_blog matches Some(e) && e.fresh(now)) ==> {
                &&& *final(store) == *old(store)
                &&& final(rel).query_count == old(rel).query_count
                &&& r@ == old(store).latest_blog->Some_0.value@
            },
            !(old(store).latest_blog matches Some(e) && e.fresh(now)) ==> {
                &&& final(rel).query_count == old(rel).query_count + 1
                &&& r@ == old(rel).latest_blogs@
                &&& final(store).latest_blog matches Some(e2) && e2.value@ == r@ && e2.expires_at
                    == now + LATEST_BLOG_KEY_EXPIRE
            },
    {
        let latest_blog = self.cache.get_latest_blog(store, now);
        match latest_blog {
            Some(v) => v,
            None => {
                let latest_blogs = rel.get_latest_blog();
                self.cache.set_latest_blog(store, Some(&latest_blogs), now);
                latest_blogs
            },
        }
    }

    /// One post by id: read-through over the content hash, caching even
    /// an absent result as a confirmed-absent marker. The whole
    /// behaviour is the relation [`blog_get_spec`].
    pub fn get_blog_by_id(&self, store: &mut KvStore, rel: &mut RelStore, id: i64) -> (r: Result<
        BlogContentVo,
        E,
    >)
        requires
            old(store).wf(),
            old(rel).wf(),
            old(rel).query_count < u64::MAX,
        ensures
            final(store).wf(),
            final(rel).wf(),
            blog_get_spec(*old(store), *old(rel), *final(store), *final(rel), r, id),
    {
        if id <= 0 {
            return Err(E::error(Status::QUERY_OR_PARAMS_ERROR, "非法参数".to_owned()));
        }
        let redis_blog = self.cache.get_blog_info(store, id);
        match redis_blog {
            Some(cached) => {
                match cached {
                    Some(blog) => Ok(blog),
                    None => Err(
                        E::error(Status::BLOG_NOT_FOUND_ERROR, "该博客不存在".to_owned()),
                    ),
                }
            },
            None => {
                let result = rel.get_blog_by_id(&id);
                self.cache.set_blog_info(store, id, &result);
                match result {
                    Some(blog) => Ok(blog),
                    None => Err(
                        E::error(Status::BLOG_NOT_FOUND_ERROR, "该博客不存在".to_owned()),
                    ),
                }
            },
        }
    }

    /// One page view: the atomic seed-or-increment step on the pending
    /// view-count map.
    pub fn increase_in_view(&self, store: &mut KvStore, default_count: i64, id: i64) -> (r: i64)
        requires
            old(store).wf(),
            old(store).eye_count_map@.contains_key(id as int) ==> old(
                store,
            ).eye_count_map@[id as int] < i64::MAX,
            default_count < i64::MAX,
        ensures
            final(store).wf(),
            *final(store) == (KvStore {
                eye_count_map: final(store).eye_count_map,
                ..*old(store)
            }),
            final(store).eye_count_map@ == old(store).eye_count_map@.insert(id as int, r),
            r == crate::blog_cache::next_view_count(old(store).eye_count_map@, default_count, id),
    {
        self.cache.increase_in_view(store, default_count, id)
    }

    /// The nightly flush: swaps the pending map out, writes each total
    /// into the relational store, keeps only the entries whose post no
    /// longer exists, and drops the content cache, which held the stale
    /// counts.
    pub fn flush_view_counts(&self, store: &mut KvStore, rel: &mut RelStore)
        requires
            old(store).wf(),
            old(rel).wf(),
            old(rel).query_count + old(store).eye_count_map.entries@.len() <= u64::MAX,
        ensures
            final(store).wf(),
            final(rel).wf(),
            flush_spec(*old(store), *old(rel), *final(store), *final(rel)),
    {
        let mut drained = IdMap::new();
        core::mem::swap(&mut drained, &mut store.eye_count_map);
        let ghost counts = drained.entries@;
        let n = drained.entries.len();
        let mut i: usize = 0;
        while i < n
            invariant
                i <= n,
                n == counts.len(),
                counts == old(store).eye_count_map.entries@,
                old(rel).query_count + n <= u64::MAX,
                drained.entries@ == counts,
                drained.wf(),
                store.wf(),
                rel.wf(),
                *store == (KvStore {
                    eye_count_map: store.eye_count_map,
                    ..*old(store)
                }),
                *rel == (RelStore {
                    blogs: rel.blogs,
                    query_count: rel.query_count,
                    ..*old(rel)
                }),
                rel.query_count == old(rel).query_count + i,
                rel.blogs@.dom() == old(rel).blogs@.dom(),
                forall|k: int|
                    #![trigger rel.blogs@[k]]
                    old(rel).blogs@.contains_key(k) ==> rel.blogs@[k]@ == (match count_of(
                        counts.subrange(0, i as int),
                        k,
                    ) {
                        Some(v) => crate::rel_store::RelStore::with_eye_count(
                            old(rel).blogs@[k],
                            v,
                        ),
                        None => old(rel).blogs@[k]@,
                    }),
                forall|k: int|
                    #![trigger store.eye_count_map@.contains_key(k)]
                    store.eye_count_map@.contains_key(k) <==> (count_of(
                        counts.subrange(0, i as int),
                        k,
                    ) is Some && !old(rel).blogs@.contains_key(k)),
                forall|k: int|
                    #![trigger store.eye_count_map@[k]]
                    store.eye_count_map@.contains_key(k) ==> count_of(
                        counts.subrange(0, i as int),
                        k,
                    ) == Some(store.eye_count_map@[k]),
            decreases n - i,
        {
            let id = drained.entries[i].0;
            let value = drained.entries[i].1;
            proof {
                assert forall|j: int| 0 <= j < i implies (#[trigger] counts[j]).0
                    != counts[i as int].0 by {}
                lemma_count_of_absent(counts.subrange(0, i as int), counts[i as int].0 as int);
            }
            let ok = rel.update_eye_count(id, value);
            if !ok {
                store.eye_count_map.insert(id, value);
            }
            proof {
                lemma_count_of_extend(counts, i as int);
            }
            i += 1;
        }
        store.blog_map.clear();
        proof {
            assert(counts.subrange(0, n as int) =~= counts);
            assert forall|k: int|
                #![trigger final(store).eye_count_map@.contains_key(k)]
                final(store).eye_count_map@.contains_key(k) <==> (old(
                    store,
                ).eye_count_map@.contains_key(k) && !old(rel).blogs@.contains_key(k)) by {
                crate::maps::lemma_id_view_contains(counts, k);
                if old(store).eye_count_map@.contains_key(k) {
                    let j = choose|j: int| 0 <= j < counts.len() && #[trigger] counts[j].0 as int
                        == k;
                    lemma_count_of_present(counts, k);
                }
                if count_of(counts, k) is Some {
                    lemma_count_of_in(counts, k);
                }
            }
            assert forall|k: int|
                #![trigger final(store).eye_count_map@[k]]
                final(store).eye_count_map@.contains_key(k) implies final(store).eye_count_map@[k]
                == old(store).eye_count_map@[k] by {
                lemma_count_of_in(counts, k);
                let j = choose|j: int| 0 <= j < counts.len() && (#[trigger] counts[j]).0 as int
                    == k;
                crate::maps::lemma_id_view_lookup(counts, j);
                lemma_count_of_present(counts, k);
            }
        }
    }

    /// The curated recommended set, as cached; empty when none was set.
    pub fn get_recommend_blog(&self, store: &KvStore) -> (r: Vec<RecommendBlogVo>)
        ensures
            match store.recommend_blog {
                Some(v) => r@ == v@,
                None => r@.len() == 0,
            },
    {
        self.cache.get_recommend_blog(store)
    }

    /// Replaces the curated recommended set: exactly four ids, resolved
    /// against the store, then written to the cache.
    pub fn set_recommend_blog(&self, store: &mut KvStore, rel: &mut RelStore, ids: &Vec<i64>) -> (r:
        Result<Vec<RecommendBlogVo>, E>)
        requires
            old(store).wf(),
            old(rel).wf(),
            old(rel).query_count < u64::MAX,
        ensures
            final(store).wf(),
            final(rel).wf(),
            RelStore::same_data(*old(rel), *final(rel)),
            *final(store) == (KvStore {
                recommend_blog: final(store).recommend_blog,
                ..*old(store)
            }),
            ids@.len() != 4 ==> {
                &&& *final(store) == *old(store)
                &&& *final(rel) == *old(rel)
                &&& r matches Err(e) && e.code == Status::CHECK_DATA_ERROR
            },
            ids@.len() == 4 ==> {
                &&& final(rel).query_count == old(rel).query_count + 1
                &&& r matches Ok(v) && v@ == RelStore::recommend_rows(old(rel).blogs@, ids@)
                &&& final(store).recommend_blog matches Some(v2) && v2@ == RelStore::recommend_rows(
                    old(rel).blogs@,
                    ids@,
                )
            },
    {
        if ids.len() != 4 {
            return Err(E::error(Status::CHECK_DATA_ERROR, "ID只能为4个".to_owned()));
        }
        let blogs = rel.select_id_in_blogs(ids);
        self.cache.set_recommend_blog(store, &blogs);
        Ok(blogs)
    }

    /// Stores the draft a user is editing.
    pub fn set_edit_blog(&self, store: &mut KvStore, u_id: i64, content: &String) -> (r: bool)
        requires
            old(store).wf(),
        ensures
            final(store).wf(),
            *final(store) == (KvStore {
                save_blog_map: final(store).save_blog_map,
                ..*old(store)
            }),
            final(store).save_blog_map@ == old(store).save_blog_map@.insert(u_id as int, *content),
            r,
    {
        self.cache.set_save_edit_blog(store, u_id, content)
    }

    /// The draft a user was editing, if any.
    pub fn get_edit_blog(&self, store: &KvStore, u_id: i64) -> (r: Option<String>)
        requires
            store.wf(),
        ensures
            match r {
                Some(s) => store.save_blog_map@.contains_key(u_id as int) && s == store
                    .save_blog_map@[u_id as int],
                None => !store.save_blog_map@.contains_key(u_id as int),
            },
    {
        self.cache.get_save_edit_blog(store, u_id)
    }

    /// Creates a post: a request that fails validation is rejected with
    /// its message; a successful insert invalidates every cached listing
    /// page when the page cache is enabled.
    pub fn add_blog(
        &self,
        store: &mut KvStore,
        rel: &mut RelStore,
        blog_req: &BlogRequest,
        u_id: i64,
        page_cache_enabled: bool,
    ) -> (r: Result<i64, E>)
        requires
            old(store).wf(),
            old(rel).wf(),
            old(rel).query_count < u64::MAX,
            old(rel).next_id < i64::MAX,
        ensures
            final(store).wf(),
            final(rel).wf(),
            *final(store) == (KvStore { page_map: final(store).page_map, ..*old(store) }),
            blog_request_error(
                blog_req.title@,
                blog_req.description@,
                blog_req.content@,
                blog_req.cover_image@,
                blog_req.topic,
                blog_req.category,
            ) matches Some(m) ==> {
                &&& *final(store) == *old(store)
                &&& *final(rel) == *old(rel)
                &&& r matches Err(e) && e.code == Status::CHECK_DATA_ERROR && e.message@ == m
            },
            blog_request_error(
                blog_req.title@,
                blog_req.description@,
                blog_req.content@,
                blog_req.cover_image@,
                blog_req.topic,
                blog_req.category,
            ) is None ==> {
                &&& r == (Result::<i64, E>::Ok(old(rel).next_id))
                &&& final(rel).next_id == old(rel).next_id + 1
                &&& final(rel).blogs@.dom() == old(rel).blogs@.dom().insert(
                    old(rel).next_id as int,
                )
                &&& final(rel).blogs@[old(rel).next_id as int]@.title@ == blog_req.title@
                &&& (if page_cache_enabled {
                    final(store).page_map@ == Map::<Seq<char>, Expiring<
                        PageInfo<BlogVo>,
                    >>::empty()
                } else {
                    *final(store) == *old(store)
                })
            },
    {
        if let Some(err) = blog_req.check() {
            return Err(E::error(Status::CHECK_DATA_ERROR, err));
        }
        let result = rel.insert_blog(blog_req, u_id);
        if result.is_ok() {
            if page_cache_enabled {
                clear_page_info_keys(store);
            }
        }
        result
    }

    /// Updates a post: the row is written first, then the affected cache
    /// entries go — every listing page when the page cache is enabled,
    /// and the post's own cached content.
    pub fn update_blog(
        &self,
        store: &mut KvStore,
        rel: &mut RelStore,
        req: &BlogRequest,
        u_id: i64,
        page_cache_enabled: bool,
    ) -> (r: Option<E>)
        requires
            old(store).wf(),
            old(rel).wf(),
            old(rel).query_count < u64::MAX,
        ensures
            final(store).wf(),
            final(rel).wf(),
            *final(store) == (KvStore {
                page_map: final(store).page_map,
                blog_map: final(store).blog_map,
                ..*old(store)
            }),
            req.id is None ==> {
                &&& *final(store) == *old(store)
                &&& *final(rel) == *old(rel)
                &&& r matches Some(e) && e.code == Status::CHECK_DATA_ERROR
            },
            req.id matches Some(id) ==> {
                &&& r is None
                &&& final(rel).blogs@.dom() == old(rel).blogs@.dom()
                &&& (old(rel).blogs@.contains_key(id as int) ==> final(rel).blogs@[id as int]@
                    == RelStore::row_with_request(old(rel).blogs@[id as int], *req))
                &&& final(store).blog_map@ == old(store).blog_map@.remove(id as int)
                &&& (if page_cache_enabled {
                    final(store).page_map@ == Map::<Seq<char>, Expiring<
                        PageInfo<BlogVo>,
                    >>::empty()
                } else {
                    final(store).page_map@ == old(store).page_map@
                })
            },
    {
        if req.id.is_none() {
            return Some(E::error(Status::CHECK_DATA_ERROR, "博客ID不能为空".to_owned()));
        }
        let result = rel.update_blog(req, u_id);
        if result.is_none() {
            if page_cache_enabled {
                clear_page_info_keys(store);
            }
            let id = match req.id {
                Some(i) => i,
                None => 0,
            };
            self.cache.delete_blog_info_by_id(store, id);
        }
        result
    }
}

/// Extending a processed prefix by one entry updates exactly that
/// entry's pending count.
proof fn lemma_count_of_extend(counts: Seq<(i64, i64)>, i: int)
    requires
        0 <= i < counts.len(),
    ensures
        forall|k: int|
            #![trigger count_of(counts.subrange(0, i + 1), k)]
            count_of(counts.subrange(0, i + 1), k) == (if counts[i].0 as int == k {
                Some(counts[i].1)
            } else {
                count_of(counts.subrange(0, i), k)
            }),
{
    assert forall|k: int|
        count_of(counts.subrange(0, i + 1), k) == (if counts[i].0 as int == k {
            Some(counts[i].1)
        } else {
            count_of(counts.subrange(0, i), k)
        }) by {
        assert(counts.subrange(0, i + 1).drop_last() =~= counts.subrange(0, i));
        assert(counts.subrange(0, i + 1).last() == counts[i]);
    }
}

/// With distinct keys, an entry's pending count is its recorded value.
proof fn lemma_count_of_present(counts: Seq<(i64, i64)>, k: int)
    requires
        forall|p: int, q: int|
            0 <= p < q < counts.len() ==> (#[trigger] counts[p]).0 != (#[trigger] counts[q]).0,
    ensures
        (exists|j: int| 0 <= j < counts.len() && (#[trigger] counts[j]).0 as int == k) ==> (
        forall|j: int|
            0 <= j < counts.len() && (#[trigger] counts[j]).0 as int == k ==> count_of(counts, k)
                == Some(counts[j].1)),
    decreases counts.len(),
{
    if counts.len() > 0 {
        lemma_count_of_present(counts.drop_last(), k);
        assert forall|j: int|
            0 <= j < counts.len() && (#[trigger] counts[j]).0 as int == k implies count_of(
            counts,
            k,
        ) == Some(counts[j].1) by {
            if counts.last().0 as int == k {
                assert(j == counts.len() - 1);
            } else {
                assert(j < counts.len() - 1);
                assert(counts.drop_last()[j] == counts[j]);
            }
        }
    }
}

/// A key no entry carries has no pending count.
proof fn lemma_count_of_absent(counts: Seq<(i64, i64)>, k: int)
    requires
        forall|j: int| 0 <= j < counts.len() ==> (#[trigger] counts[j]).0 as int != k,
    ensures
        count_of(counts, k) is None,
    decreases counts.len(),
{
    if counts.len() > 0 {
        lemma_count_of_absent(counts.drop_last(), k);
    }
}

/// A recorded pending count comes from some entry.
proof fn lemma_count_of_in(counts: Seq<(i64, i64)>, k: int)
    requires
        count_of(counts, k) is Some,
    ensures
        exists|j: int| 0 <= j < counts.len() && (#[trigger] counts[j]).0 as int == k,
    decreases counts.len(),
{
    if counts.len() > 0 {
        if counts.last().0 as int == k {
            assert(counts[counts.len() - 1].0 as int == k);
        } else {
            lemma_count_of_in(counts.drop_last(), k);
            let j = choose|j: int|
                0 <= j < counts.len() - 1 && (#[trigger] counts.drop_last()[j]).0 as int == k;
            assert(counts[j].0 as int == k);
        }
    }
}

} // verus!
