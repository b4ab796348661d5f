use vstd::prelude::*;

use crate::cloning::clone_is_exact;

verus! {

/// One page of a listing: the rows plus paging metadata.
pub struct PageInfo<T> {
    pub page: i64,
    pub size: i64,
    pub total: i64,
    pub data: Vec<T>,
}

/// Mathematical content of a [`PageInfo`]: the row vector as a sequence.
pub struct PageInfoSnap<T> {
    pub page: i64,
    pub size: i64,
    pub total: i64,
    pub data: Seq<T>,
}

impl<T> View for PageInfo<T> {
    type V = PageInfoSnap<T>;

    open spec fn view(&self) -> PageInfoSnap<T> {
        PageInfoSnap { page: self.page, size: self.size, total: self.total, data: self.data@ }
    }
}

impl<T: Clone> Clone for PageInfo<T> {
    fn clone(&self) -> (r: Self)
        ensures
            clone_is_exact::<T>() ==> r@ == self@,
    {
        let data = self.data.clone();
        proof {
            if clone_is_exact::<T>() {
                assert forall|i: int| 0 <= i < self.data@.len() implies data@[i]
                    == self.data@[i] by {
                    assert(cloned::<T>(self.data@[i], data@[i]));
                }
                assert(data@ =~= self.data@);
            }
        }
        PageInfo { page: self.page, size: self.size, total: self.total, data }
    }
}

impl<T> PageInfo<T> {
    /// An empty result page.
    pub fn empty(page: i64) -> (r: Self)
        ensures
            r.page == page,
            r.size == 0,
            r.total == 0,
            r@.data.len() == 0,
    {
        PageInfo { page, size: 0, total: 0, data: Vec::new() }
    }
}

} // verus!
