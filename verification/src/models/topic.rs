use vstd::prelude::*;

use crate::models::user::SimpleUserVo;

verus! {

pub struct TopicVo {
    pub id: i64,
    pub name: String,
    pub description: String,
    pub cover_image: String,
    pub user: SimpleUserVo,
    pub time_stamp: i64,
}

impl Clone for TopicVo {
    fn clone(&self) -> (r: Self)
        ensures
            r == *self,
    {
        TopicVo {
            id: self.id,
            name: self.name.clone(),
            description: self.description.clone(),
            cover_image: self.cover_image.clone(),
            user: self.user.clone(),
            time_stamp: self.time_stamp,
        }
    }
}

#[derive(Debug)]
pub struct SimpleTopicVo {
    pub id: i64,
    pub name: String,
}

impl Clone for SimpleTopicVo {
    fn clone(&self) -> (r: Self)
        ensures
            r == *self,
    {
        SimpleTopicVo { id: self.id, name: self.name.clone() }
    }
}

pub struct UserSimpleTopicVo {
    pub id: i64,
    pub name: String,
    pub description: String,
    pub cover_image: String,
}

/// Fields of a topic to create or update.
pub struct TopicRequest {
    pub id: Option<i64>,
    pub name: String,
    pub desc: String,
    pub cover: String,
}

} // verus!
