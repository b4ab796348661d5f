//! The tag service: an id-keyed lookup cache that records hits only, and
//! a random-sample set repopulated synchronously when it is empty.

use vstd::prelude::*;

use crate::cloning::clone_vec_exact;
use crate::constants::TAG_RANDOM_LIST_COUNT;
use crate::kv_store::KvStore;
use crate::models::tag::TagVo;
use crate::rel_store::RelStore;
use crate::trusted::sample_indices;

verus! {

/// Every element of `r` is one of the elements of `pool`.
pub open spec fn drawn_from(r: Seq<TagVo>, pool: Seq<TagVo>) -> bool {
    forall|i: int|
        0 <= i < r.len() ==> exists|j: int| 0 <= j < pool.len() && #[trigger] r[i] == pool[j]
}

/// `r` reads `pool` at the positions `picks`, which are in bounds and
/// pairwise distinct: a sample of distinct members of the set.
pub open spec fn drawn_at(r: Seq<TagVo>, pool: Seq<TagVo>, picks: Seq<int>) -> bool {
    &&& picks.len() == r.len()
    &&& (forall|i: int|
        0 <= i < r.len() ==> 0 <= #[trigger] picks[i] < pool.len() && r[i] == pool[picks[i]])
    &&& (forall|i: int, j: int| 0 <= i < j < r.len() ==> picks[i] != picks[j])
}

/// Orchestrates the tag caches in front of the store.
pub struct TagService {}

impl TagService {
    pub fn new() -> TagService {
        TagService {}
    }

    /// The tag list straight from the relational store.
    pub fn get_category_list(&self, rel: &mut RelStore) -> (r: Vec<TagVo>)
        requires
            old(rel).wf(),
            old(rel).query_count < u64::MAX,
        ensures
            final(rel).wf(),
            RelStore::same_data(*old(rel), *final(rel)),
            final(rel).query_count == old(rel).query_count + 1,
            r@.len() == old(rel).tags.entries@.len(),
            forall|i: int| 0 <= i < r@.len() ==> #[trigger] r@[i] == old(rel).tags.entries@[i].1,
    {
        rel.get_tag_list()
    }

    /// Creates a tag under the next id.
    pub fn add_tag(&self, rel: &mut RelStore, name: &String) -> (r: Option<TagVo>)
        requires
            old(rel).wf(),
            old(rel).query_count < u64::MAX,
            old(rel).next_id < i64::MAX,
        ensures
            final(rel).wf(),
            final(rel).query_count == old(rel).query_count + 1,
            final(rel).tags@ == old(rel).tags@.insert(
                old(rel).next_id as int,
                TagVo { id: old(rel).next_id, name: *name },
            ),
            r == (Some(TagVo { id: old(rel).next_id, name: *name })),
    {
        rel.add_tag(name)
    }

    /// A random sample of tags. An empty sample set is first repopulated
    /// from the relational store; the sample then holds distinct
    /// elements of the set, as many as the set offers up to the fixed
    /// sample size.
    pub fn get_random_tag(&self, store: &mut KvStore, rel: &mut RelStore) -> (r: Vec<TagVo>)
        requires
            old(store).wf(),
            old(rel).wf(),
            old(rel).query_count < u64::MAX,
        ensures
            final(store).wf(),
            final(rel).wf(),
            RelStore::same_data(*old(rel), *final(rel)),
            *final(store) == (KvStore { random_tags: final(store).random_tags, ..*old(store) }),
            old(store).random_tags@.len() > 0 ==> {
                &&& *final(store) == *old(store)
                &&& final(rel).query_count == old(rel).query_count
                &&& drawn_from(r@, old(store).random_tags@)
                &&& r@.len() == vstd::math::min(
                    TAG_RANDOM_LIST_COUNT as int,
                    old(store).random_tags@.len() as int,
                )
            },
            old(store).random_tags@.len() == 0 ==> {
                &&& final(rel).query_count == old(rel).query_count + 1
                &&& drawn_from(r@, final(store).random_tags@)
                &&& final(store).random_tags@.len() == old(rel).tags.entries@.len()
                &&& r@.len() == vstd::math::min(
                    TAG_RANDOM_LIST_COUNT as int,
                    final(store).random_tags@.len() as int,
                )
            },
            exists|picks: Seq<int>| #[trigger] drawn_at(r@, final(store).random_tags@, picks),
    {
        if store.random_tags.len() == 0 {
            let tag_list = rel.get_tag_list();
            store.random_tags = tag_list;
        }
        let len = store.random_tags.len();
        let amount = if len < TAG_RANDOM_LIST_COUNT {
            len
        } else {
            TAG_RANDOM_LIST_COUNT
        };
        let picks = sample_indices(len, amount);
        let ghost pk = picks@.map_values(|u: usize| u as int);
        let mut r: Vec<TagVo> = Vec::new();
        let mut i: usize = 0;
        while i < picks.len()
            invariant
                i <= picks.len(),
                forall|j: int| 0 <= j < picks@.len() ==> #[trigger] picks@[j] < store.random_tags@.len(),
                forall|p: int, q: int| 0 <= p < q < picks@.len() ==> picks@[p] != picks@[q],
                pk == picks@.map_values(|u: usize| u as int),
                r@.len() == i,
                drawn_from(r@, store.random_tags@),
                drawn_at(r@, store.random_tags@, pk.subrange(0, i as int)),
            decreases picks.len() - i,
        {
            let idx = picks[i];
            r.push(store.random_tags[idx].clone());
            proof {
                assert(r@.last() == store.random_tags@[picks@[i as int] as int]);
                assert forall|a: int|
                    0 <= a < r@.len() implies 0 <= #[trigger] pk.subrange(0, i + 1)[a]
                    < store.random_tags@.len() && r@[a] == store.random_tags@[pk.subrange(
                    0,
                    i + 1,
                )[a]] by {
                    assert(pk.subrange(0, i + 1)[a] == picks@[a] as int);
                }
                assert forall|a: int, b: int| 0 <= a < b < r@.len() implies #[trigger] pk.subrange(
                    0,
                    i + 1,
                )[a] != #[trigger] pk.subrange(0, i + 1)[b] by {
                    assert(pk.subrange(0, i + 1)[a] == picks@[a] as int);
                    assert(pk.subrange(0, i + 1)[b] == picks@[b] as int);
                    assert(picks@[a] != picks@[b]);
                }
            }
            i += 1;
        }
        proof {
            assert(pk.subrange(0, picks@.len() as int) =~= pk);
            assert(drawn_at(r@, store.random_tags@, pk));
        }
        r
    }

    /// One tag by id: read-through over the lookup hash; only hits are
    /// written back, an absent tag leaves the cache alone.
    pub fn get_tag_by_id(&self, store: &mut KvStore, rel: &mut RelStore, tid: i64) -> (r: Option<
        TagVo,
    >)
        requires
            old(store).wf(),
            old(rel).wf(),
            old(rel).query_count < u64::MAX,
        ensures
            final(store).wf(),
            final(rel).wf(),
            RelStore::same_data(*old(rel), *final(rel)),
            *final(store) == (KvStore { tag_map: final(store).tag_map, ..*old(store) }),
            old(store).tag_map@.contains_key(tid as int) ==> {
                &&& *final(store) == *old(store)
                &&& final(rel).query_count == old(rel).query_count
                &&& r == (Some(old(store).tag_map@[tid as int]))
            },
            !old(store).tag_map@.contains_key(tid as int) ==> {
                &&& final(rel).query_count == old(rel).query_count + 1
                &&& (old(rel).tags@.contains_key(tid as int) ==> {
                    &&& r == (Some(old(rel).tags@[tid as int]))
                    &&& final(store).tag_map@ == old(store).tag_map@.insert(
                        tid as int,
                        old(rel).tags@[tid as int],
                    )
                })
                &&& (!old(rel).tags@.contains_key(tid as int) ==> {
                    &&& r is None
                    &&& *final(store) == *old(store)
                })
            },
    {
        let cached: Option<TagVo> = match store.tag_map.get(tid) {
            Some(t) => Some(t.clone()),
            None => None,
        };
        match cached {
            Some(t) => Some(t),
            None => {
                let result = rel.get_tag_by_id(tid);
                match result {
                    Some(tag) => {
                        store.tag_map.insert(tid, tag.clone());
                        Some(tag)
                    },
                    None => None,
                }
            },
        }
    }
}

} // verus!
