use blog_cache::blog_cache::BlogCache;
use blog_cache::blog_service::BlogService;
use blog_cache::cache::clear_page_info_keys;
use blog_cache::custom_error::Status;
use blog_cache::jwt::token_matches_cache;
use blog_cache::kv_store::KvStore;
use blog_cache::models::blogs::BlogContentVo;
use blog_cache::models::user::SimpleUserVo;
use blog_cache::rel_store::RelStore;
use blog_cache::request::blog_request::{BlogFindRequest, Sort};
use blog_cache::user_cache::UserCache;

fn sample_blog(id: i64, eye_count: i64) -> BlogContentVo {
    BlogContentVo {
        id,
        description: "d".to_string(),
        title: format!("title-{}", id),
        cover_image: "c.png".to_string(),
        source_url: "".to_string(),
        content: "body".to_string(),
        eye_count,
        like_count: 0,
        category: None,
        topic: None,
        tags: Vec::new(),
        user: SimpleUserVo { id: 1, nick_name: "n".to_string() },
        create_time: 0,
        update_time: 0,
    }
}

#[test]
fn read_through_cold_then_warm() {
    let mut store = KvStore::new();
    let mut rel = RelStore::new();
    rel.blogs.insert(7, sample_blog(7, 5));
    let svc = BlogService::new();

    let first = svc.get_blog_by_id(&mut store, &mut rel, 7).unwrap();
    assert_eq!(first.title, "title-7");
    assert_eq!(rel.query_count, 1);

    let second = svc.get_blog_by_id(&mut store, &mut rel, 7).unwrap();
    assert_eq!(second.title, "title-7");
    assert_eq!(rel.query_count, 1, "warm read must not hit the store");
}

#[test]
fn read_through_caches_absent_verdict() {
    let mut store = KvStore::new();
    let mut rel = RelStore::new();
    let svc = BlogService::new();

    let miss = svc.get_blog_by_id(&mut store, &mut rel, 9);
    assert_eq!(miss.unwrap_err().code, Status::BLOG_NOT_FOUND_ERROR);
    assert_eq!(rel.query_count, 1);

    let again = svc.get_blog_by_id(&mut store, &mut rel, 9);
    assert_eq!(again.unwrap_err().code, Status::BLOG_NOT_FOUND_ERROR);
    assert_eq!(rel.query_count, 1, "the absent verdict must be served from cache");
}

#[test]
fn invalid_id_is_rejected() {
    let mut store = KvStore::new();
    let mut rel = RelStore::new();
    let svc = BlogService::new();
    let r = svc.get_blog_by_id(&mut store, &mut rel, 0);
    assert_eq!(r.unwrap_err().code, Status::QUERY_OR_PARAMS_ERROR);
    assert_eq!(rel.query_count, 0);
}

#[test]
fn invalidate_then_miss() {
    let mut store = KvStore::new();
    let mut rel = RelStore::new();
    rel.blogs.insert(3, sample_blog(3, 0));
    let cache = BlogCache::new();

    cache.set_blog_info(&mut store, 3, &Some(sample_blog(3, 999)));
    cache.delete_blog_info_by_id(&mut store, 3);

    let svc = BlogService::new();
    let got = svc.get_blog_by_id(&mut store, &mut rel, 3).unwrap();
    assert_eq!(rel.query_count, 1, "after invalidation the store must be re-queried");
    assert_eq!(got.eye_count, 0, "the stale cached value must not come back");
}

fn run_counter(n: i64) {
    let mut store = KvStore::new();
    let cache = BlogCache::new();
    let base = 50;
    let mut last = 0;
    for _ in 0..n {
        last = cache.increase_in_view(&mut store, base, 11);
    }
    assert_eq!(last, base + n, "no view may be lost");
}

#[test]
fn view_counter_accumulates_2() {
    run_counter(2);
}

#[test]
fn view_counter_accumulates_10() {
    run_counter(10);
}

#[test]
fn view_counter_accumulates_100() {
    run_counter(100);
}

#[test]
fn seed_then_increment_scenario() {
    // Post 42 holds 100 views durably; two views arrive.
    let mut store = KvStore::new();
    let mut rel = RelStore::new();
    rel.blogs.insert(42, sample_blog(42, 100));
    let svc = BlogService::new();

    let first = svc.increase_in_view(&mut store, 100, 42);
    assert_eq!(first, 101, "the first view seeds the map with the prior count plus one");
    let second = svc.increase_in_view(&mut store, 100, 42);
    assert_eq!(second, 102, "the second view increments, never re-seeds");
}

#[test]
fn flush_writes_totals_then_second_flush_is_noop() {
    let mut store = KvStore::new();
    let mut rel = RelStore::new();
    rel.blogs.insert(1, sample_blog(1, 10));
    rel.blogs.insert(2, sample_blog(2, 20));
    let svc = BlogService::new();

    svc.increase_in_view(&mut store, 10, 1);
    svc.increase_in_view(&mut store, 10, 1);
    svc.increase_in_view(&mut store, 20, 2);

    svc.flush_view_counts(&mut store, &mut rel);
    assert_eq!(store.eye_count_map.entries.len(), 0);
    assert_eq!(rel.blogs.get(1).unwrap().eye_count, 12);
    assert_eq!(rel.blogs.get(2).unwrap().eye_count, 21);
    let queries_after_first = rel.query_count;

    svc.flush_view_counts(&mut store, &mut rel);
    assert_eq!(rel.blogs.get(1).unwrap().eye_count, 12);
    assert_eq!(rel.blogs.get(2).unwrap().eye_count, 21);
    assert_eq!(rel.query_count, queries_after_first, "an empty map flushes as a no-op");
}

#[test]
fn flush_keeps_entries_of_missing_posts() {
    let mut store = KvStore::new();
    let mut rel = RelStore::new();
    let svc = BlogService::new();
    svc.increase_in_view(&mut store, 4, 77);
    svc.flush_view_counts(&mut store, &mut rel);
    assert_eq!(store.eye_count_map.entries.len(), 1, "a failed write keeps its entry pending");
    assert_eq!(store.eye_count_map.get(77), Some(&5));
}

#[test]
fn single_active_token() {
    let mut store = KvStore::new();
    let cache = UserCache::new();
    let user = "alice".to_string();
    let t1 = "token-one".to_string();
    let t2 = "token-two".to_string();

    cache.set_token(&mut store, &user, &t1, 0, 7);
    cache.set_token(&mut store, &user, &t2, 0, 7);

    assert_eq!(cache.get_token(&store, &user, 1), Some(t2.clone()));
    assert!(token_matches_cache(&store, &user, &t2, 1));
    assert!(!token_matches_cache(&store, &user, &t1, 1), "the first token must be invalid");

    cache.remove_user_token(&mut store, &user);
    assert_eq!(cache.get_token(&store, &user, 1), None);
    assert!(!token_matches_cache(&store, &user, &t2, 1), "logout must take effect immediately");
}

#[test]
fn token_expires_by_ttl() {
    let mut store = KvStore::new();
    let cache = UserCache::new();
    let user = "bob".to_string();
    let t = "tok".to_string();
    cache.set_token(&mut store, &user, &t, 0, 1);
    assert_eq!(cache.get_token(&store, &user, 86399), Some(t.clone()));
    assert_eq!(cache.get_token(&store, &user, 86400), None);
}

#[test]
fn bulk_page_invalidation() {
    let mut store = KvStore::new();
    let mut rel = RelStore::new();
    let svc = BlogService::new();
    let reqs = [
        BlogFindRequest { page: 1, cid: -1, sort: Sort::CREATE },
        BlogFindRequest { page: 2, cid: -1, sort: Sort::EYE },
        BlogFindRequest { page: 1, cid: 5, sort: Sort::CREATE },
    ];
    for r in reqs.iter() {
        svc.get_blog_list_by_category(&mut store, &mut rel, r, 0, true, 6);
    }
    assert_eq!(rel.query_count, 3);
    for r in reqs.iter() {
        svc.get_blog_list_by_category(&mut store, &mut rel, r, 0, true, 6);
    }
    assert_eq!(rel.query_count, 3, "all three keys must be warm");

    clear_page_info_keys(&mut store);
    for r in reqs.iter() {
        svc.get_blog_list_by_category(&mut store, &mut rel, r, 0, true, 6);
    }
    assert_eq!(rel.query_count, 6, "all three keys must miss after bulk invalidation");
}

#[test]
fn hot_and_latest_sets_expire() {
    let mut store = KvStore::new();
    let mut rel = RelStore::new();
    rel.hot_blogs.push(blog_cache::models::blogs::SimpleBlogVo { id: 1, title: "h".to_string() });
    rel.latest_blogs.push(blog_cache::models::blogs::SimpleBlogVo { id: 2, title: "l".to_string() });
    let svc = BlogService::new();

    let hot = svc.get_hot_blog(&mut store, &mut rel, 0);
    assert_eq!(hot.len(), 1);
    assert_eq!(hot[0].title, "h");
    assert_eq!(rel.query_count, 1);
    svc.get_hot_blog(&mut store, &mut rel, 100);
    assert_eq!(rel.query_count, 1, "the hot set must be warm within its TTL");
    svc.get_hot_blog(&mut store, &mut rel, 1800);
    assert_eq!(rel.query_count, 2, "after thirty minutes the hot set lapses");

    let latest = svc.get_latest_blog(&mut store, &mut rel, 0);
    assert_eq!(latest[0].title, "l");
    assert_eq!(rel.query_count, 3);
    svc.get_latest_blog(&mut store, &mut rel, 3 * 3600 - 1);
    assert_eq!(rel.query_count, 3, "the latest set lives three hours");
    svc.get_latest_blog(&mut store, &mut rel, 3 * 3600);
    assert_eq!(rel.query_count, 4);
}

#[test]
fn listing_cache_respects_flag_and_ttl() {
    let mut store = KvStore::new();
    let mut rel = RelStore::new();
    let svc = BlogService::new();
    let req = BlogFindRequest { page: 1, cid: -1, sort: Sort::CREATE };

    svc.get_blog_list_by_category(&mut store, &mut rel, &req, 0, false, 6);
    svc.get_blog_list_by_category(&mut store, &mut rel, &req, 0, false, 6);
    assert_eq!(rel.query_count, 2, "with the flag off every read queries the store");

    svc.get_blog_list_by_category(&mut store, &mut rel, &req, 0, true, 6);
    assert_eq!(rel.query_count, 3);
    // Six hours later the entry has lapsed.
    svc.get_blog_list_by_category(&mut store, &mut rel, &req, 6 * 3600, true, 6);
    assert_eq!(rel.query_count, 4, "a lapsed entry is a miss");
}
