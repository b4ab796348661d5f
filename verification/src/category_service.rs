//! The category service: a full-list cache with no expiry, invalidated
//! wholesale on taxonomy writes.

use vstd::prelude::*;

use crate::cloning::clone_vec_exact;
use crate::kv_store::KvStore;
use crate::models::category::CategoryVo;
use crate::rel_store::RelStore;

verus! {

/// Orchestrates the category list cache in front of the store.
pub struct CategoryService {}

impl CategoryService {
    pub fn new() -> CategoryService {
        CategoryService {}
    }

    /// The category list straight from the relational store.
    pub fn get_category_for_db(&self, rel: &mut RelStore) -> (r: Vec<CategoryVo>)
        requires
            old(rel).wf(),
            old(rel).query_count < u64::MAX,
        ensures
            final(rel).wf(),
            RelStore::same_data(*old(rel), *final(rel)),
            final(rel).query_count == old(rel).query_count + 1,
            r@.len() == old(rel).categories.entries@.len(),
            forall|i: int|
                0 <= i < r@.len() ==> #[trigger] r@[i] == old(rel).categories.entries@[i].1,
    {
        rel.get_category_list()
    }

    /// Creates a category under the next id.
    pub fn add_category(&self, rel: &mut RelStore, name: &String) -> (r: Option<CategoryVo>)
        requires
            old(rel).wf(),
            old(rel).query_count < u64::MAX,
            old(rel).next_id < i64::MAX,
        ensures
            final(rel).wf(),
            final(rel).query_count == old(rel).query_count + 1,
            final(rel).categories@ == old(rel).categories@.insert(
                old(rel).next_id as int,
                CategoryVo { id: old(rel).next_id, name: *name },
            ),
            r == (Some(CategoryVo { id: old(rel).next_id, name: *name })),
    {
        rel.add_category(name)
    }

    /// The category list: read-through with no expiry. A hit serves the
    /// cached list; a miss loads the store's list and caches it.
    pub fn get_category_for_cache(&self, store: &mut KvStore, rel: &mut RelStore) -> (r: Vec<
        CategoryVo,
    >)
        requires
            old(store).wf(),
            old(rel).wf(),
            old(rel).query_count < u64::MAX,
        ensures
            final(store).wf(),
            final(rel).wf(),
            RelStore::same_data(*old(rel), *final(rel)),
            *final(store) == (KvStore { category_list: final(store).category_list, ..*old(store) }),
            old(store).category_list matches Some(v) ==> {
                &&& *final(store) == *old(store)
                &&& final(rel).query_count == old(rel).query_count
                &&& r@ == v@
            },
            old(store).category_list is None ==> {
                &&& final(rel).query_count == old(rel).query_count + 1
                &&& r@.len() == old(rel).categories.entries@.len()
                &&& (forall|i: int|
                    0 <= i < r@.len() ==> #[trigger] r@[i] == old(rel).categories.entries@[i].1)
                &&& final(store).category_list matches Some(v2) && v2@ == r@
            },
    {
        proof {
            assert forall|x: CategoryVo, y: CategoryVo|
                call_ensures(CategoryVo::clone, (&x,), y) implies y == x by {}
        }
        let hit: Option<Vec<CategoryVo>> = match &store.category_list {
            Some(v) => Some(clone_vec_exact(v)),
            None => None,
        };
        match hit {
            Some(v) => v,
            None => {
                let category_list = rel.get_category_list();
                store.category_list = Some(clone_vec_exact(&category_list));
                category_list
            },
        }
    }
}

} // verus!
