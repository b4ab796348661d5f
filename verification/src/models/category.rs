use vstd::prelude::*;

verus! {

#[derive(Debug)]
pub struct CategoryVo {
    pub id: i64,
    pub name: String,
}

impl Clone for CategoryVo {
    fn clone(&self) -> (r: Self)
        ensures
            r == *self,
    {
        CategoryVo { id: self.id, name: self.name.clone() }
    }
}

} // verus!
