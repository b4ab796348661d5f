//! Bulk invalidation of whole cache sections.
//!
//! A single write can touch an unbounded number of listing pages, so the
//! listing section is dropped wholesale; the taxonomy sections are small
//! and cheap to rebuild, so they are dropped wholesale too.

use vstd::prelude::*;

use crate::kv_store::KvStore;

verus! {

/// Drops every cached listing page, whatever its page number, sort mode
/// or category filter: bulk invalidation of the whole key family.
pub fn clear_page_info_keys(store: &mut KvStore)
    requires
        old(store).wf(),
    ensures
        final(store).wf(),
        *final(store) == (KvStore { page_map: final(store).page_map, ..*old(store) }),
        final(store).page_map@ == Map::<Seq<char>, crate::kv_store::Expiring<
            crate::page_info::PageInfo<crate::models::blogs::BlogVo>,
        >>::empty(),
{
    store.page_map.clear();
}

/// Drops the cached category list.
pub fn clear_category_info_keys(store: &mut KvStore)
    requires
        old(store).wf(),
    ensures
        final(store).wf(),
        *final(store) == (KvStore { category_list: final(store).category_list, ..*old(store) }),
        final(store).category_list is None,
{
    store.category_list = None;
}

/// Drops the random tag sample and the whole tag lookup hash.
pub fn clear_tag_info_key(store: &mut KvStore)
    requires
        old(store).wf(),
    ensures
        final(store).wf(),
        *final(store) == (KvStore {
            random_tags: final(store).random_tags,
            tag_map: final(store).tag_map,
            ..*old(store)
        }),
        final(store).random_tags@.len() == 0,
        final(store).tag_map@ == Map::<int, crate::models::tag::TagVo>::empty(),
{
    store.random_tags = Vec::new();
    store.tag_map.clear();
}

/// Drops the cached first topic page and the whole topic lookup hash.
pub fn clear_topic_info_key(store: &mut KvStore)
    requires
        old(store).wf(),
    ensures
        final(store).wf(),
        *final(store) == (KvStore {
            first_page_topic: final(store).first_page_topic,
            topic_map: final(store).topic_map,
            ..*old(store)
        }),
        final(store).first_page_topic is None,
        final(store).topic_map@ == Map::<
            int,
            Option<crate::models::topic::SimpleTopicVo>,
        >::empty(),
{
    store.first_page_topic = None;
    store.topic_map.clear();
}

/// Drops one user's cached profile, after a role or profile change.
pub fn clear_user_info(store: &mut KvStore, username: &String)
    requires
        old(store).wf(),
    ensures
        final(store).wf(),
        *final(store) == (KvStore { user_info: final(store).user_info, ..*old(store) }),
        final(store).user_info@ == old(store).user_info@.remove(username@),
{
    store.user_info.remove(username);
}

} // verus!
