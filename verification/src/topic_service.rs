//! The topic service: the first listing page cached with a TTL, an
//! id-keyed lookup cache that records absent results too, and topic
//! creation with its invalidation.

use vstd::prelude::*;

use crate::common::is_image_url;
use crate::custom_error::{E, Status};
use crate::kv_store::{Expiring, KvStore};
use crate::models::topic::{SimpleTopicVo, TopicRequest, TopicVo};
use crate::page_info::PageInfo;
use crate::redis_keys::FIRST_PAGE_TOPIC_EXPIRE;
use crate::rel_store::RelStore;
use crate::trusted::image_url_match;

verus! {

/// Orchestrates the topic caches in front of the store.
pub struct TopicService {}

impl TopicService {
    pub fn new() -> TopicService {
        TopicService {}
    }

    /// One topic listing page. Only the first page is cached, with its
    /// fixed TTL; other pages always query the store.
    pub fn get_topic_list_by_page(
        &self,
        store: &mut KvStore,
        rel: &mut RelStore,
        page: i64,
        now: u64,
    ) -> (r: PageInfo<TopicVo>)
        requires
            old(store).wf(),
            old(rel).wf(),
            old(rel).query_count < u64::MAX,
            now + FIRST_PAGE_TOPIC_EXPIRE <= u64::MAX,
        ensures
            final(store).wf(),
            final(rel).wf(),
            RelStore::same_data(*old(rel), *final(rel)),
            *final(store) == (KvStore {
                first_page_topic: final(store).first_page_topic,
                ..*old(store)
            }),
            page != 1 ==> {
                &&& *final(store) == *old(store)
                &&& final(rel).query_count == old(rel).query_count + 1
                &&& r@ == old(rel).topic_page_result(page)
            },
            page == 1 && (old(store).first_page_topic matches Some(e) && e.fresh(now)) ==> {
                &&& *final(store) == *old(store)
                &&& final(rel).query_count == old(rel).query_count
                &&& r@ == old(store).first_page_topic->Some_0.value@
            },
            page == 1 && !(old(store).first_page_topic matches Some(e) && e.fresh(now)) ==> {
                &&& final(rel).query_count == old(rel).query_count + 1
                &&& r@ == old(rel).topic_page_result(1)
                &&& final(store).first_page_topic matches Some(e2) && e2.value@ == r@
                    && e2.expires_at == now + FIRST_PAGE_TOPIC_EXPIRE
            },
    {
        proof {
            assert forall|x: TopicVo, y: TopicVo|
                call_ensures(TopicVo::clone, (&x,), y) implies y == x by {}
        }
        if page != 1 {
            return rel.get_topic_by_page(page);
        }
        let hit: Option<PageInfo<TopicVo>> = match &store.first_page_topic {
            Some(e) => {
                if now < e.expires_at {
                    Some(e.value.clone())
                } else {
                    None
                }
            },
            None => None,
        };
        match hit {
            Some(p) => p,
            None => {
                let result = rel.get_topic_by_page(page);
                let copy = result.clone();
                store.first_page_topic = Some(
                    Expiring { value: copy, expires_at: now + FIRST_PAGE_TOPIC_EXPIRE },
                );
                result
            },
        }
    }

    /// One topic by id: read-through over the lookup hash, caching even
    /// an absent result as a confirmed-absent marker.
    pub fn get_topic_by_id(&self, store: &mut KvStore, rel: &mut RelStore, tid: i64) -> (r: Option<
        SimpleTopicVo,
    >)
        requires
            old(store).wf(),
            old(rel).wf(),
            old(rel).query_count < u64::MAX,
        ensures
            final(store).wf(),
            final(rel).wf(),
            RelStore::same_data(*old(rel), *final(rel)),
            *final(store) == (KvStore { topic_map: final(store).topic_map, ..*old(store) }),
            old(store).topic_map@.contains_key(tid as int) ==> {
                &&& *final(store) == *old(store)
                &&& final(rel).query_count == old(rel).query_count
                &&& r == old(store).topic_map@[tid as int]
            },
            !old(store).topic_map@.contains_key(tid as int) ==> {
                &&& final(rel).query_count == old(rel).query_count + 1
                &&& r == (if old(rel).topics@.contains_key(tid as int) {
                    Some(old(rel).topics@[tid as int])
                } else {
                    Option::<SimpleTopicVo>::None
                })
                &&& final(store).topic_map@ == old(store).topic_map@.insert(tid as int, r)
            },
    {
        let cached: Option<Option<SimpleTopicVo>> = match store.topic_map.get(tid) {
            Some(c) => Some(
                match c {
                    Some(t) => Some(t.clone()),
                    None => None,
                },
            ),
            None => None,
        };
        match cached {
            Some(c) => c,
            None => {
                let result = rel.get_topic_by_id(tid);
                let copy = match &result {
                    Some(t) => Some(t.clone()),
                    None => None,
                };
                store.topic_map.insert(tid, copy);
                result
            },
        }
    }

    /// Creates a topic: the cover must look like an image link; success
    /// drops the cached first listing page.
    pub fn add_topic(&self, store: &mut KvStore, rel: &mut RelStore, uid: i64, topic: TopicRequest)
        -> (r: Option<E>)
        requires
            old(store).wf(),
            old(rel).wf(),
            old(rel).query_count < u64::MAX,
            old(rel).next_id < i64::MAX,
        ensures
            final(store).wf(),
            final(rel).wf(),
            *final(store) == (KvStore {
                first_page_topic: final(store).first_page_topic,
                ..*old(store)
            }),
            !image_url_match(topic.cover@) ==> {
                &&& *final(store) == *old(store)
                &&& *final(rel) == *old(rel)
                &&& r matches Some(e) && e.code == Status::CHECK_DATA_ERROR
            },
            image_url_match(topic.cover@) ==> {
                &&& r is None
                &&& final(rel).topics@ == old(rel).topics@.insert(
                    old(rel).next_id as int,
                    SimpleTopicVo { id: old(rel).next_id, name: topic.name },
                )
                &&& final(rel).next_id == old(rel).next_id + 1
                &&& final(store).first_page_topic is None
            },
    {
        if !is_image_url(topic.cover.as_str()) {
            return Some(
                E::error(
                    Status::CHECK_DATA_ERROR,
                    "这不是一个正确的图片链接".to_owned(),
                ),
            );
        }
        let result = rel.add_topic(uid, &topic);
        match result {
            Some(e) => Some(E::error(Status::ADD_ERROR, "添加专题失败".to_owned())),
            None => {
                store.first_page_topic = None;
                None
            },
        }
    }
}

} // verus!
