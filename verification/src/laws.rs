//! The cache-consistency laws the library guarantees, stated over the
//! same predicates its functions promise in their contracts.

use vstd::prelude::*;

use crate::blog_cache::next_view_count;
use crate::blog_service::{blog_get_spec, count_of, flush_spec, listing_get_spec, page_cache_hit};
use crate::kv_store::{Expiring, KvStore};
use crate::models::blogs::{BlogContentVo, BlogVo};
use crate::custom_error::E;
use crate::page_info::PageInfo;
use crate::redis_keys::{page_info_key_view, HOUR};
use crate::rel_store::RelStore;
use crate::request::blog_request::BlogFindRequest;
use crate::models::user::UserVo;
use crate::user_service::{effective_user, user_get_spec};

verus! {

/// Read-through correctness for the post cache: a read on a cold key
/// answers with the relational store's current row and populates the
/// cache, so that a second read of the same key issues no further query
/// and observes the same verdict.
pub proof fn lemma_blog_read_through(
    s0: KvStore,
    r0: RelStore,
    s1: KvStore,
    r1: RelStore,
    v1: Result<BlogContentVo, E>,
    s2: KvStore,
    r2: RelStore,
    v2: Result<BlogContentVo, E>,
    id: i64,
)
    requires
        id > 0,
        !s0.blog_map@.contains_key(id as int),
        blog_get_spec(s0, r0, s1, r1, v1, id),
        blog_get_spec(s1, r1, s2, r2, v2, id),
    ensures
        (match v1 {
            Ok(b) => r0.blog_row(id) == Some(b@),
            Err(_) => r0.blog_row(id) is None,
        }),
        r1.query_count == r0.query_count + 1,
        r2.query_count == r1.query_count,
        (match (v1, v2) {
            (Ok(a), Ok(b)) => a@ == b@,
            (Err(_), Err(_)) => true,
            _ => false,
        }),
{
    assert(s1.blog_map@.dom().contains(id as int));
}

/// Invalidate-then-miss for the post cache: after a write of `cached`
/// under `id` and its invalidation, a read goes back to the relational
/// store and answers with the store's row, not with `cached`.
pub proof fn lemma_blog_invalidate_then_miss(
    s0: KvStore,
    s1: KvStore,
    s2: KvStore,
    r2: RelStore,
    s3: KvStore,
    r3: RelStore,
    v: Result<BlogContentVo, E>,
    cached: Option<BlogContentVo>,
    id: i64,
)
    requires
        id > 0,
        s1.blog_map@ == s0.blog_map@.insert(id as int, cached),
        s2.blog_map@ == s1.blog_map@.remove(id as int),
        blog_get_spec(s2, r2, s3, r3, v, id),
    ensures
        r3.query_count == r2.query_count + 1,
        (match v {
            Ok(b) => r2.blog_row(id) == Some(b@),
            Err(_) => r2.blog_row(id) is None,
        }),
{
    assert(!s2.blog_map@.dom().contains(id as int));
}

/// The pending view-count map after `n` further views of `id`.
pub open spec fn iter_views(m: Map<int, i64>, default_count: i64, id: i64, n: nat) -> Map<
    int,
    i64,
>
    decreases n,
{
    if n == 0 {
        m
    } else {
        let prev = iter_views(m, default_count, id, (n - 1) as nat);
        prev.insert(id as int, next_view_count(prev, default_count, id) as i64)
    }
}

/// View-counter accumulation: `n` views of a previously absent id leave
/// its pending total at the fallback count plus `n` — no view is lost.
/// Each exec step is the seed-or-increment of `increase_in_view`, whose
/// contract writes exactly `next_view_count` into the map.
pub proof fn lemma_view_counter_accumulates(m: Map<int, i64>, default_count: i64, id: i64, n: nat)
    requires
        !m.contains_key(id as int),
        1 <= n,
        default_count + n <= i64::MAX,
    ensures
        iter_views(m, default_count, id, n).contains_key(id as int),
        iter_views(m, default_count, id, n)[id as int] == default_count + n,
    decreases n,
{
    let prev = iter_views(m, default_count, id, (n - 1) as nat);
    if n == 1 {
        assert(prev == m);
        assert(next_view_count(prev, default_count, id) == default_count + 1);
    } else {
        lemma_view_counter_accumulates(m, default_count, id, (n - 1) as nat);
        assert(next_view_count(prev, default_count, id) == default_count + n);
    }
    assert(i64::MIN <= default_count + n <= i64::MAX);
    assert((next_view_count(prev, default_count, id) as i64) == default_count + n);
}

/// Flush idempotence: when every pending entry of the first flush named
/// an existing post, the map it leaves is empty, and a second flush
/// issues no row update and leaves every view count as the first flush
/// wrote it.
pub proof fn lemma_flush_idempotent(
    s0: KvStore,
    r0: RelStore,
    s1: KvStore,
    r1: RelStore,
    s2: KvStore,
    r2: RelStore,
)
    requires
        forall|k: int|
            s0.eye_count_map@.contains_key(k) ==> r0.blogs@.contains_key(k),
        flush_spec(s0, r0, s1, r1),
        flush_spec(s1, r1, s2, r2),
    ensures
        s1.eye_count_map@ == Map::<int, i64>::empty(),
        r2.query_count == r1.query_count,
        r2.blogs@.dom() == r1.blogs@.dom(),
        forall|k: int|
            #![trigger r2.blogs@[k]]
            r1.blogs@.contains_key(k) ==> r2.blogs@[k]@ == r1.blogs@[k]@,
{
    assert forall|k: int| !(#[trigger] s1.eye_count_map@.contains_key(k)) by {}
    assert(s1.eye_count_map@ =~= Map::<int, i64>::empty());
    if s1.eye_count_map.entries@.len() > 0 {
        crate::maps::lemma_id_view_contains(
            s1.eye_count_map.entries@,
            s1.eye_count_map.entries@.last().0 as int,
        );
        assert(false);
    }
    assert forall|k: int| #![trigger r2.blogs@[k]] r1.blogs@.contains_key(k) implies r2.blogs@[k]@
        == r1.blogs@[k]@ by {
        lemma_count_of_empty(s1.eye_count_map.entries@, k);
    }
}

proof fn lemma_count_of_empty(counts: Seq<(i64, i64)>, k: int)
    requires
        counts.len() == 0,
    ensures
        count_of(counts, k) is None,
{
}

/// A single active token per user: after one token is stored and then
/// another, only the second is what the cache holds; the first passes a
/// later cache check only if it equals the second.
pub proof fn lemma_single_active_token(
    s0: KvStore,
    s1: KvStore,
    s2: KvStore,
    username: Seq<char>,
    t1: String,
    t2: String,
    e1: u64,
    e2: u64,
    now: u64,
)
    requires
        s1.user_token@ == s0.user_token@.insert(username, Expiring { value: t1, expires_at: e1 }),
        s2.user_token@ == s1.user_token@.insert(username, Expiring { value: t2, expires_at: e2 }),
    ensures
        s2.user_token@[username].value == t2,
        (s2.user_token@.contains_key(username) && s2.user_token@[username].fresh(now)
            && s2.user_token@[username].value@ == t1@) ==> t1@ == t2@,
{
}

/// Bulk page invalidation: once the listing section is dropped, no
/// composite key hits, whatever page, sort mode and filter built it —
/// the next read of any listing key goes to the relational store.
pub proof fn lemma_bulk_page_invalidation(s: KvStore, now: u64)
    requires
        s.page_map@ == Map::<Seq<char>, Expiring<
            crate::page_info::PageInfo<crate::models::blogs::BlogVo>,
        >>::empty(),
    ensures
        forall|key: Seq<char>| !page_cache_hit(s, key, now),
{
}


/// Read-through correctness for the listing cache: with the page cache
/// enabled, a read on a cold composite key answers with the relational
/// store's result for that key and caches it, so that a second read at
/// the same instant issues no further query and observes the same page.
pub proof fn lemma_listing_read_through(
    s0: KvStore,
    r0: RelStore,
    s1: KvStore,
    r1: RelStore,
    v1: PageInfo<BlogVo>,
    s2: KvStore,
    r2: RelStore,
    v2: PageInfo<BlogVo>,
    request: BlogFindRequest,
    now: u64,
    hours: u64,
)
    requires
        hours > 0,
        now + hours * HOUR <= u64::MAX,
        !s0.page_map@.contains_key(page_info_key_view(request.page, request.sort, request.cid)),
        listing_get_spec(s0, r0, s1, r1, v1, request, now, true, hours),
        listing_get_spec(s1, r1, s2, r2, v2, request, now, true, hours),
    ensures
        v1@ == r0.listing_result(
            page_info_key_view(request.page, request.sort, request.cid),
            request.page,
        ),
        r1.query_count == r0.query_count + 1,
        r2.query_count == r1.query_count,
        v2@ == v1@,
{
    let key = page_info_key_view(request.page, request.sort, request.cid);
    assert(!page_cache_hit(s0, key, now));
    assert(s1.page_map@.dom().contains(key));
    assert(s1.page_map@[key].fresh(now)) by {
        assert(s1.page_map@[key].expires_at == now + hours * HOUR);
        assert(hours * HOUR >= 1 * HOUR) by (nonlinear_arith)
            requires hours >= 1;
        assert(HOUR > 0);
    }
    assert(page_cache_hit(s1, key, now));
}


/// Read-through correctness for the profile cache: a read of a username
/// with no cached entry answers with the store's row, and when the row
/// exists it is cached, so that a second read within the TTL issues no
/// further query and observes the same profile.
pub proof fn lemma_user_read_through(
    s0: KvStore,
    r0: RelStore,
    s1: KvStore,
    r1: RelStore,
    v1: Option<UserVo>,
    s2: KvStore,
    r2: RelStore,
    v2: Option<UserVo>,
    username: Seq<char>,
    now: u64,
)
    requires
        now + crate::redis_keys::USER_INFO_KEY_EXPIRE <= u64::MAX,
        !s0.user_info@.contains_key(username),
        r0.users@.contains_key(username),
        user_get_spec(s0, r0, s1, r1, v1, username, now),
        user_get_spec(s1, r1, s2, r2, v2, username, now),
    ensures
        v1 == Some(r0.users@[username]),
        r1.query_count == r0.query_count + 1,
        r2.query_count == r1.query_count,
        v2 == v1,
{
    assert(s1.user_info@.dom().contains(username));
    assert(s1.user_info@[username].fresh(now)) by {
        assert(crate::redis_keys::USER_INFO_KEY_EXPIRE > 0);
    }
}

/// Invalidate-then-miss for the profile cache: after a profile is
/// cached and then dropped, a read goes back to the relational store
/// and answers with the store's row, not with the dropped entry.
pub proof fn lemma_user_invalidate_then_miss(
    s0: KvStore,
    s1: KvStore,
    s2: KvStore,
    r2: RelStore,
    s3: KvStore,
    r3: RelStore,
    v: Option<UserVo>,
    cached: Expiring<Option<UserVo>>,
    username: Seq<char>,
    now: u64,
)
    requires
        s1.user_info@ == s0.user_info@.insert(username, cached),
        s2.user_info@ == s1.user_info@.remove(username),
        user_get_spec(s2, r2, s3, r3, v, username, now),
    ensures
        r3.query_count == r2.query_count + 1,
        v == (if r2.users@.contains_key(username) {
            Some(r2.users@[username])
        } else {
            Option::<UserVo>::None
        }),
{
    assert(!s2.user_info@.dom().contains(username));
}

} // verus!
