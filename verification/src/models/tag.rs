use vstd::prelude::*;

verus! {

#[derive(Debug)]
pub struct TagVo {
    pub id: i64,
    pub name: String,
}

impl Clone for TagVo {
    fn clone(&self) -> (r: Self)
        ensures
            r == *self,
    {
        TagVo { id: self.id, name: self.name.clone() }
    }
}

} // verus!
