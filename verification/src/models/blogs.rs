use vstd::prelude::*;

use crate::cloning::{clone_option_exact, clone_vec_exact};
use crate::models::category::CategoryVo;
use crate::models::tag::TagVo;
use crate::models::topic::SimpleTopicVo;
use crate::models::user::SimpleUserVo;

verus! {

/// One row of a blog listing page.
pub struct BlogVo {
    pub id: i64,
    pub title: String,
    pub desc: String,
    pub cover_image: String,
    pub time_stamp: i64,
    pub category: CategoryVo,
    pub user: SimpleUserVo,
}

impl Clone for BlogVo {
    fn clone(&self) -> (r: Self)
        ensures
            r == *self,
    {
        BlogVo {
            id: self.id,
            title: self.title.clone(),
            desc: self.desc.clone(),
            cover_image: self.cover_image.clone(),
            time_stamp: self.time_stamp,
            category: self.category.clone(),
            user: self.user.clone(),
        }
    }
}

/// One row of a topic's blog listing.
pub struct TopicBlogVo {
    pub id: i64,
    pub title: String,
    pub desc: String,
    pub cover_image: String,
    pub time_stamp: i64,
    pub user: SimpleUserVo,
}

/// Entry of the hot and latest blog sets.
pub struct SimpleBlogVo {
    pub id: i64,
    pub title: String,
}

impl Clone for SimpleBlogVo {
    fn clone(&self) -> (r: Self)
        ensures
            r == *self,
    {
        SimpleBlogVo { id: self.id, title: self.title.clone() }
    }
}

/// Entry of the curated recommended set.
#[derive(Debug)]
pub struct RecommendBlogVo {
    pub id: i64,
    pub title: String,
    pub cover_image: String,
}

impl Clone for RecommendBlogVo {
    fn clone(&self) -> (r: Self)
        ensures
            r == *self,
    {
        RecommendBlogVo {
            id: self.id,
            title: self.title.clone(),
            cover_image: self.cover_image.clone(),
        }
    }
}

/// Row pushed to the full-text search index.
pub struct SearchBlogVo {
    pub id: i64,
    pub description: String,
    pub title: String,
}

/// Full content of one post, as cached under its id.
///
/// Creation and update times are carried as epoch milliseconds; the
/// collaborator that renders dates converts at the boundary.
#[derive(Debug)]
pub struct BlogContentVo {
    pub id: i64,
    pub description: String,
    pub title: String,
    pub cover_image: String,
    pub source_url: String,
    pub content: String,
    pub eye_count: i64,
    pub like_count: i64,
    pub category: Option<CategoryVo>,
    pub topic: Option<SimpleTopicVo>,
    pub tags: Vec<TagVo>,
    pub user: SimpleUserVo,
    pub create_time: i64,
    pub update_time: i64,
}

/// Mathematical content of a [`BlogContentVo`]: the tag vector as a sequence.
pub struct BlogContentSnap {
    pub id: i64,
    pub description: String,
    pub title: String,
    pub cover_image: String,
    pub source_url: String,
    pub content: String,
    pub eye_count: i64,
    pub like_count: i64,
    pub category: Option<CategoryVo>,
    pub topic: Option<SimpleTopicVo>,
    pub tags: Seq<TagVo>,
    pub user: SimpleUserVo,
    pub create_time: i64,
    pub update_time: i64,
}

impl View for BlogContentVo {
    type V = BlogContentSnap;

    open spec fn view(&self) -> BlogContentSnap {
        BlogContentSnap {
            id: self.id,
            description: self.description,
            title: self.title,
            cover_image: self.cover_image,
            source_url: self.source_url,
            content: self.content,
            eye_count: self.eye_count,
            like_count: self.like_count,
            category: self.category,
            topic: self.topic,
            tags: self.tags@,
            user: self.user,
            create_time: self.create_time,
            update_time: self.update_time,
        }
    }
}

impl Clone for BlogContentVo {
    fn clone(&self) -> (r: Self)
        ensures
            r@ == self@,
    {
        proof {
            assert forall|x: CategoryVo, y: CategoryVo|
                call_ensures(CategoryVo::clone, (&x,), y) implies y == x by {}
            assert forall|x: SimpleTopicVo, y: SimpleTopicVo|
                call_ensures(SimpleTopicVo::clone, (&x,), y) implies y == x by {}
            assert forall|x: TagVo, y: TagVo| call_ensures(TagVo::clone, (&x,), y) implies y
                == x by {}
        }
        let r = BlogContentVo {
            id: self.id,
            description: self.description.clone(),
            title: self.title.clone(),
            cover_image: self.cover_image.clone(),
            source_url: self.source_url.clone(),
            content: self.content.clone(),
            eye_count: self.eye_count,
            like_count: self.like_count,
            category: clone_option_exact(&self.category),
            topic: clone_option_exact(&self.topic),
            tags: clone_vec_exact(&self.tags),
            user: self.user.clone(),
            create_time: self.create_time,
            update_time: self.update_time,
        };
        r
    }
}

} // verus!
