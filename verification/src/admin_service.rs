//! The admin service: bulk deletes with their cache invalidation
//! fan-out, and role changes with the profile-cache drop.

use vstd::prelude::*;

use crate::cache::{
    clear_category_info_keys, clear_page_info_keys, clear_tag_info_key, clear_topic_info_key,
    clear_user_info,
};
use crate::kv_store::KvStore;
use crate::maps::{map_remove_ids, removed_count};
use crate::rel_store::RelStore;
use crate::request::admin_request::UpdateRole;

verus! {

/// Orchestrates the admin writes and their invalidations.
pub struct AdminService {}

impl AdminService {
    pub fn new() -> AdminService {
        AdminService {}
    }

    /// Deletes posts; any hit invalidates every cached listing page
    /// when the page cache is enabled.
    pub fn delete_blog_ids(
        &self,
        store: &mut KvStore,
        rel: &mut RelStore,
        ids: &Vec<i64>,
        uid: i64,
        deleted: bool,
        page_cache_enabled: bool,
    ) -> (r: i64)
        requires
            old(store).wf(),
            old(rel).wf(),
            old(rel).query_count < u64::MAX,
            ids@.len() <= i64::MAX,
        ensures
            final(store).wf(),
            final(rel).wf(),
            r == removed_count(old(rel).blogs@, ids@),
            final(rel).blogs@ == map_remove_ids(old(rel).blogs@, ids@),
            *final(store) == (KvStore { page_map: final(store).page_map, ..*old(store) }),
            (r > 0 && page_cache_enabled) ==> final(store).page_map@ == Map::<
                Seq<char>,
                crate::kv_store::Expiring<
                    crate::page_info::PageInfo<crate::models::blogs::BlogVo>,
                >,
            >::empty(),
            !(r > 0 && page_cache_enabled) ==> *final(store) == *old(store),
    {
        let i = rel.delete_blog_rows(ids);
        if i > 0 {
            if page_cache_enabled {
                clear_page_info_keys(store);
            }
        }
        i
    }

    /// Deletes categories; any hit drops the category list and, when
    /// the page cache is enabled, every cached listing page.
    pub fn delete_category_ids(
        &self,
        store: &mut KvStore,
        rel: &mut RelStore,
        ids: &Vec<i64>,
        deleted: bool,
        page_cache_enabled: bool,
    ) -> (r: i64)
        requires
            old(store).wf(),
            old(rel).wf(),
            old(rel).query_count < u64::MAX,
            ids@.len() <= i64::MAX,
        ensures
            final(store).wf(),
            final(rel).wf(),
            r == removed_count(old(rel).categories@, ids@),
            final(rel).categories@ == map_remove_ids(old(rel).categories@, ids@),
            r > 0 ==> final(store).category_list is None,
            (r > 0 && page_cache_enabled) ==> final(store).page_map@ == Map::<
                Seq<char>,
                crate::kv_store::Expiring<
                    crate::page_info::PageInfo<crate::models::blogs::BlogVo>,
                >,
            >::empty(),
            r <= 0 ==> *final(store) == *old(store),
            *final(store) == (KvStore {
                category_list: final(store).category_list,
                page_map: final(store).page_map,
                ..*old(store)
            }),
    {
        let i = rel.delete_category_rows(ids);
        if i > 0 {
            clear_category_info_keys(store);
            if page_cache_enabled {
                clear_page_info_keys(store);
            }
        }
        i
    }

    /// Deletes tags; any hit drops the tag sample set and lookup hash.
    pub fn delete_tag_ids(
        &self,
        store: &mut KvStore,
        rel: &mut RelStore,
        ids: &Vec<i64>,
        deleted: bool,
    ) -> (r: i64)
        requires
            old(store).wf(),
            old(rel).wf(),
            old(rel).query_count < u64::MAX,
            ids@.len() <= i64::MAX,
        ensures
            final(store).wf(),
            final(rel).wf(),
            r == removed_count(old(rel).tags@, ids@),
            final(rel).tags@ == map_remove_ids(old(rel).tags@, ids@),
            r > 0 ==> final(store).random_tags@.len() == 0 && final(store).tag_map@ == Map::<
                int,
                crate::models::tag::TagVo,
            >::empty(),
            r <= 0 ==> *final(store) == *old(store),
            *final(store) == (KvStore {
                random_tags: final(store).random_tags,
                tag_map: final(store).tag_map,
                ..*old(store)
            }),
    {
        let i = rel.delete_tag_rows(ids);
        if i > 0 {
            clear_tag_info_key(store);
        }
        i
    }

    /// Deletes topics; any hit drops the first topic page and the topic
    /// lookup hash.
    pub fn delete_topics_ids(
        &self,
        store: &mut KvStore,
        rel: &mut RelStore,
        ids: &Vec<i64>,
        deleted: bool,
        uid: i64,
    ) -> (r: i64)
        requires
            old(store).wf(),
            old(rel).wf(),
            old(rel).query_count < u64::MAX,
            ids@.len() <= i64::MAX,
        ensures
            final(store).wf(),
            final(rel).wf(),
            r == removed_count(old(rel).topics@, ids@),
            final(rel).topics@ == map_remove_ids(old(rel).topics@, ids@),
            r > 0 ==> final(store).first_page_topic is None && final(store).topic_map@ == Map::<
                int,
                Option<crate::models::topic::SimpleTopicVo>,
            >::empty(),
            r <= 0 ==> *final(store) == *old(store),
            *final(store) == (KvStore {
                first_page_topic: final(store).first_page_topic,
                topic_map: final(store).topic_map,
                ..*old(store)
            }),
    {
        let i = rel.delete_topic_rows(ids);
        if i > 0 {
            clear_topic_info_key(store);
        }
        i
    }

    /// Changes a user's role, then drops the user's cached profile so
    /// the next read observes the new role.
    pub fn update_role(&self, store: &mut KvStore, rel: &mut RelStore, req: &UpdateRole) -> (r:
        i64)
        requires
            old(store).wf(),
            old(rel).wf(),
            old(rel).query_count < u64::MAX,
        ensures
            final(store).wf(),
            final(rel).wf(),
            *final(store) == (KvStore { user_info: final(store).user_info, ..*old(store) }),
            final(store).user_info@ == old(store).user_info@.remove(req.username@),
            old(rel).users@.contains_key(req.username@) ==> r == 1 && final(rel).users@ == old(
                rel,
            ).users@.insert(
                req.username@,
                RelStore::with_role(old(rel).users@[req.username@], req.role),
            ),
            !old(rel).users@.contains_key(req.username@) ==> r == 0 && final(rel).users@ == old(
                rel,
            ).users@,
    {
        let i = rel.update_role(req);
        clear_user_info(store, &req.username);
        i
    }
}

} // verus!
