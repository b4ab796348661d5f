//! Model of the relational store, the source of truth behind the cache.
//!
//! The store holds the authoritative rows and answers the queries the
//! cache layer issues on a miss. `query_count` counts every call into
//! the store, so the read-through laws can state that a cache hit issues
//! no query. A real SQL backend sits behind the same operations in the
//! surrounding application.

use vstd::prelude::*;

use crate::custom_error::{E, Status};
use crate::maps::{map_remove_ids, removed_count, IdMap, StrMap};
use crate::models::blogs::{BlogContentSnap, BlogContentVo, BlogVo, RecommendBlogVo, SimpleBlogVo};
use crate::models::category::CategoryVo;
use crate::models::tag::TagVo;
use crate::models::topic::{SimpleTopicVo, TopicRequest, TopicVo};
use crate::models::user::UserVo;
use crate::cloning::clone_vec_exact;
use crate::page_info::{PageInfo, PageInfoSnap};
use crate::request::blog_request::{BlogFindRequest, BlogRequest};
use crate::redis_keys::page_info_key;
use crate::request::admin_request::UpdateRole;
use crate::request::user_request::UserRegisteredRequest;

verus! {

/// The authoritative state, plus a counter of queries served.
pub struct RelStore {
    /// Post rows by id.
    pub blogs: IdMap<BlogContentVo>,
    /// Listing pages by composite key, as the listing queries return them.
    pub pages: StrMap<PageInfo<BlogVo>>,
    /// The hot blog query result.
    pub hot_blogs: Vec<SimpleBlogVo>,
    /// The latest blog query result.
    pub latest_blogs: Vec<SimpleBlogVo>,
    /// Category rows by id.
    pub categories: IdMap<CategoryVo>,
    /// Tag rows by id.
    pub tags: IdMap<TagVo>,
    /// Topic rows by id.
    pub topics: IdMap<SimpleTopicVo>,
    /// Topic listing pages by page number.
    pub topic_pages: IdMap<PageInfo<TopicVo>>,
    /// User rows by username.
    pub users: StrMap<UserVo>,
    /// Email addresses already registered.
    pub emails: StrMap<bool>,
    /// Stored files: the digest of the bytes maps to the served URL.
    pub files: StrMap<String>,
    /// The id the next insert receives.
    pub next_id: i64,
    /// How many calls the store has served.
    pub query_count: u64,
}

impl RelStore {
    pub open spec fn wf(&self) -> bool {
        &&& self.blogs.wf()
        &&& self.pages.wf()
        &&& self.categories.wf()
        &&& self.tags.wf()
        &&& self.topics.wf()
        &&& self.topic_pages.wf()
        &&& self.users.wf()
        &&& self.emails.wf()
        &&& self.files.wf()
    }

    /// Every section unchanged; only the query counter moved.
    pub open spec fn same_data(pre: RelStore, post: RelStore) -> bool {
        post == RelStore { query_count: post.query_count, ..pre }
    }

    pub fn new() -> (r: RelStore)
        ensures
            r.wf(),
            r.query_count == 0,
            r.blogs@ == Map::<int, BlogContentVo>::empty(),
            r.pages@ == Map::<Seq<char>, PageInfo<BlogVo>>::empty(),
            r.hot_blogs@.len() == 0,
            r.latest_blogs@.len() == 0,
            r.categories@ == Map::<int, CategoryVo>::empty(),
            r.tags@ == Map::<int, TagVo>::empty(),
            r.topics@ == Map::<int, SimpleTopicVo>::empty(),
            r.topic_pages@ == Map::<int, PageInfo<TopicVo>>::empty(),
            r.users@ == Map::<Seq<char>, UserVo>::empty(),
            r.emails@ == Map::<Seq<char>, bool>::empty(),
            r.files@ == Map::<Seq<char>, String>::empty(),
            r.next_id == 1,
    {
        RelStore {
            blogs: IdMap::new(),
            pages: StrMap::new(),
            hot_blogs: Vec::new(),
            latest_blogs: Vec::new(),
            categories: IdMap::new(),
            tags: IdMap::new(),
            topics: IdMap::new(),
            topic_pages: IdMap::new(),
            users: StrMap::new(),
            emails: StrMap::new(),
            files: StrMap::new(),
            next_id: 1,
            query_count: 0,
        }
    }

    /// The post row the store returns for `id`, if any.
    pub open spec fn blog_row(&self, id: i64) -> Option<BlogContentSnap> {
        if self.blogs@.contains_key(id as int) {
            Some(self.blogs@[id as int]@)
        } else {
            None
        }
    }

    pub fn get_blog_by_id(&mut self, id: &i64) -> (r: Option<BlogContentVo>)
        requires
            old(self).wf(),
            old(self).query_count < u64::MAX,
        ensures
            final(self).wf(),
            RelStore::same_data(*old(self), *final(self)),
            final(self).query_count == old(self).query_count + 1,
            match r {
                Some(b) => old(self).blog_row(*id) == Some(b@),
                None => old(self).blog_row(*id) is None,
            },
    {
        self.query_count = self.query_count + 1;
        match self.blogs.get(*id) {
            Some(b) => Some(b.clone()),
            None => None,
        }
    }

    /// The listing page the store computes for a composite key.
    pub open spec fn listing_result(&self, key: Seq<char>, page: i64) -> PageInfoSnap<BlogVo> {
        if self.pages@.contains_key(key) {
            self.pages@[key]@
        } else {
            PageInfoSnap { page, size: 0, total: 0, data: Seq::empty() }
        }
    }

    pub fn find_page_category_list(&mut self, request: &BlogFindRequest) -> (r: PageInfo<BlogVo>)
        requires
            old(self).wf(),
            old(self).query_count < u64::MAX,
        ensures
            final(self).wf(),
            RelStore::same_data(*old(self), *final(self)),
            final(self).query_count == old(self).query_count + 1,
            r@ == old(self).listing_result(
                crate::redis_keys::page_info_key_view(request.page, request.sort, request.cid),
                request.page,
            ),
    {
        self.query_count = self.query_count + 1;
        let key = page_info_key(request.page, &request.sort, request.cid);
        proof {
            assert forall|x: BlogVo, y: BlogVo|
                call_ensures(BlogVo::clone, (&x,), y) implies y == x by {}
        }
        match self.pages.get(&key) {
            Some(p) => p.clone(),
            None => {
                let r = PageInfo::empty(request.page);
                proof {
                    assert(r@.data =~= Seq::<BlogVo>::empty());
                }
                r
            },
        }
    }

    pub fn get_hot_blogs(&mut self) -> (r: Vec<SimpleBlogVo>)
        requires
            old(self).wf(),
            old(self).query_count < u64::MAX,
        ensures
            final(self).wf(),
            RelStore::same_data(*old(self), *final(self)),
            final(self).query_count == old(self).query_count + 1,
            r@ == old(self).hot_blogs@,
    {
        self.query_count = self.query_count + 1;
        proof {
            assert forall|x: SimpleBlogVo, y: SimpleBlogVo|
                call_ensures(SimpleBlogVo::clone, (&x,), y) implies y == x by {}
        }
        clone_vec_exact(&self.hot_blogs)
    }

    pub fn get_latest_blog(&mut self) -> (r: Vec<SimpleBlogVo>)
        requires
            old(self).wf(),
            old(self).query_count < u64::MAX,
        ensures
            final(self).wf(),
            RelStore::same_data(*old(self), *final(self)),
            final(self).query_count == old(self).query_count + 1,
            r@ == old(self).latest_blogs@,
    {
        self.query_count = self.query_count + 1;
        proof {
            assert forall|x: SimpleBlogVo, y: SimpleBlogVo|
                call_ensures(SimpleBlogVo::clone, (&x,), y) implies y == x by {}
        }
        clone_vec_exact(&self.latest_blogs)
    }

    /// The row of `id` with its view count set to `value`.
    pub open spec fn with_eye_count(row: BlogContentVo, value: i64) -> BlogContentSnap {
        BlogContentSnap { eye_count: value, ..row@ }
    }

    /// One flush write: set the stored view count of `id` to `value`.
    pub fn update_eye_count(&mut self, id: i64, value: i64) -> (r: bool)
        requires
            old(self).wf(),
            old(self).query_count < u64::MAX,
        ensures
            final(self).wf(),
            final(self).query_count == old(self).query_count + 1,
            *final(self) == (RelStore {
                blogs: final(self).blogs,
                query_count: final(self).query_count,
                ..*old(self)
            }),
            r == old(self).blogs@.contains_key(id as int),
            old(self).blogs@.contains_key(id as int) ==> final(self).blogs@.dom() == old(
                self,
            ).blogs@.dom(),
            old(self).blogs@.contains_key(id as int) ==> final(self).blogs@[id as int]@
                == RelStore::with_eye_count(old(self).blogs@[id as int], value),
            forall|k: int|
                old(self).blogs@.contains_key(k) && k != id as int ==> final(self).blogs@[k]
                    == old(self).blogs@[k],
            !old(self).blogs@.contains_key(id as int) ==> final(self).blogs@ == old(self).blogs@,
    {
        self.query_count = self.query_count + 1;
        let row = match self.blogs.get(id) {
            Some(b) => Some(b.clone()),
            None => None,
        };
        match row {
            Some(mut b) => {
                b.eye_count = value;
                self.blogs.insert(id, b);
                proof {
                    assert(final(self).blogs@.dom() =~= old(self).blogs@.dom());
                }
                true
            },
            None => false,
        }
    }

    /// The recommended rows for a list of ids, present ids only, in order.
    pub open spec fn recommend_rows(m: Map<int, BlogContentVo>, ids: Seq<i64>) -> Seq<
        RecommendBlogVo,
    >
        decreases ids.len(),
    {
        if ids.len() == 0 {
            Seq::empty()
        } else {
            let rest = RelStore::recommend_rows(m, ids.drop_last());
            let id = ids.last();
            if m.contains_key(id as int) {
                rest.push(
                    RecommendBlogVo {
                        id: m[id as int]@.id,
                        title: m[id as int]@.title,
                        cover_image: m[id as int]@.cover_image,
                    },
                )
            } else {
                rest
            }
        }
    }

    pub fn select_id_in_blogs(&mut self, ids: &Vec<i64>) -> (r: Vec<RecommendBlogVo>)
        requires
            old(self).wf(),
            old(self).query_count < u64::MAX,
        ensures
            final(self).wf(),
            RelStore::same_data(*old(self), *final(self)),
            final(self).query_count == old(self).query_count + 1,
            r@ == RelStore::recommend_rows(old(self).blogs@, ids@),
    {
        let mut r: Vec<RecommendBlogVo> = Vec::new();
        let n = ids.len();
        let mut i: usize = 0;
        while i < n
            invariant
                i <= n,
                n == ids@.len(),
                self.wf(),
                self == old(self),
                r@ == RelStore::recommend_rows(self.blogs@, ids@.subrange(0, i as int)),
            decreases n - i,
        {
            let id = ids[i];
            match self.blogs.get(id) {
                Some(b) => {
                    r.push(
                        RecommendBlogVo {
                            id: b.id,
                            title: b.title.clone(),
                            cover_image: b.cover_image.clone(),
                        },
                    );
                },
                None => {},
            }
            proof {
                assert(ids@.subrange(0, i + 1 as int).drop_last() =~= ids@.subrange(0, i as int));
            }
            i += 1;
        }
        proof {
            assert(ids@.subrange(0, n as int) =~= ids@);
        }
        self.query_count = self.query_count + 1;
        r
    }

    pub fn get_user_by_username(&mut self, username: &String) -> (r: Option<UserVo>)
        requires
            old(self).wf(),
            old(self).query_count < u64::MAX,
        ensures
            final(self).wf(),
            RelStore::same_data(*old(self), *final(self)),
            final(self).query_count == old(self).query_count + 1,
            match r {
                Some(u) => old(self).users@.contains_key(username@) && u == old(
                    self,
                ).users@[username@],
                None => !old(self).users@.contains_key(username@),
            },
    {
        self.query_count = self.query_count + 1;
        match self.users.get(username) {
            Some(u) => Some(u.clone()),
            None => None,
        }
    }

    /// Whether a username or email is already taken.
    pub fn user_is_exists(&mut self, username: &String, email: &String) -> (r: Option<E>)
        requires
            old(self).wf(),
            old(self).query_count < u64::MAX,
        ensures
            final(self).wf(),
            RelStore::same_data(*old(self), *final(self)),
            final(self).query_count == old(self).query_count + 1,
            r is Some <==> (old(self).users@.contains_key(username@) || old(
                self,
            ).emails@.contains_key(email@)),
            r is Some ==> r->Some_0.code == Status::DATABASE_ERROR,
    {
        self.query_count = self.query_count + 1;
        if self.users.contains_key(username) || self.emails.contains_key(email) {
            Some(E::error(Status::DATABASE_ERROR, "该账号或邮箱已存在.".to_owned()))
        } else {
            None
        }
    }

    /// Inserts a registered user under the next id; the password field
    /// already carries the digest.
    pub fn insert_user(&mut self, user: &UserRegisteredRequest) -> (r: Option<E>)
        requires
            old(self).wf(),
            old(self).query_count < u64::MAX,
            old(self).next_id < i64::MAX,
        ensures
            final(self).wf(),
            final(self).query_count == old(self).query_count + 1,
            r is None,
            final(self).users@.contains_key(user.username@),
            final(self).users@[user.username@].username == user.username,
            final(self).users@[user.username@].password == user.password,
            final(self).users@[user.username@].nick_name == user.nick_name,
            final(self).users@[user.username@].id == old(self).next_id,
            forall|k: Seq<char>|
                old(self).users@.contains_key(k) && k != user.username@
                    ==> final(self).users@.contains_key(k) && final(self).users@[k]
                    == old(self).users@[k],
            final(self).emails@ == old(self).emails@.insert(user.email@, true),
            final(self).next_id == old(self).next_id + 1,
    {
        self.query_count = self.query_count + 1;
        let row = UserVo {
            id: self.next_id,
            username: user.username.clone(),
            password: user.password.clone(),
            nick_name: user.nick_name.clone(),
            role: "user".to_owned(),
            icon: user.icon.clone(),
        };
        self.users.insert(user.username.clone(), row);
        self.emails.insert(user.email.clone(), true);
        self.next_id = self.next_id + 1;
        None
    }

    /// All tag rows, in store order.
    pub fn get_tag_list(&mut self) -> (r: Vec<TagVo>)
        requires
            old(self).wf(),
            old(self).query_count < u64::MAX,
        ensures
            final(self).wf(),
            RelStore::same_data(*old(self), *final(self)),
            final(self).query_count == old(self).query_count + 1,
            r@.len() == old(self).tags.entries@.len(),
            forall|i: int|
                0 <= i < r@.len() ==> #[trigger] r@[i] == old(self).tags.entries@[i].1,
    {
        let mut r: Vec<TagVo> = Vec::new();
        let n = self.tags.entries.len();
        let mut i: usize = 0;
        while i < n
            invariant
                i <= n,
                n == self.tags.entries@.len(),
                self == old(self),
                r@.len() == i,
                forall|j: int| 0 <= j < i ==> #[trigger] r@[j] == self.tags.entries@[j].1,
            decreases n - i,
        {
            r.push(self.tags.entries[i].1.clone());
            i += 1;
        }
        self.query_count = self.query_count + 1;
        r
    }

    /// All category rows, in store order.
    pub fn get_category_list(&mut self) -> (r: Vec<CategoryVo>)
        requires
            old(self).wf(),
            old(self).query_count < u64::MAX,
        ensures
            final(self).wf(),
            RelStore::same_data(*old(self), *final(self)),
            final(self).query_count == old(self).query_count + 1,
            r@.len() == old(self).categories.entries@.len(),
            forall|i: int|
                0 <= i < r@.len() ==> #[trigger] r@[i] == old(self).categories.entries@[i].1,
    {
        let mut r: Vec<CategoryVo> = Vec::new();
        let n = self.categories.entries.len();
        let mut i: usize = 0;
        while i < n
            invariant
                i <= n,
                n == self.categories.entries@.len(),
                self == old(self),
                r@.len() == i,
                forall|j: int| 0 <= j < i ==> #[trigger] r@[j] == self.categories.entries@[j].1,
            decreases n - i,
        {
            r.push(self.categories.entries[i].1.clone());
            i += 1;
        }
        self.query_count = self.query_count + 1;
        r
    }

    pub fn add_tag(&mut self, name: &String) -> (r: Option<TagVo>)
        requires
            old(self).wf(),
            old(self).query_count < u64::MAX,
            old(self).next_id < i64::MAX,
        ensures
            final(self).wf(),
            final(self).query_count == old(self).query_count + 1,
            final(self).tags@ == old(self).tags@.insert(
                old(self).next_id as int,
                TagVo { id: old(self).next_id, name: *name },
            ),
            r == (Some(TagVo { id: old(self).next_id, name: *name })),
            final(self).next_id == old(self).next_id + 1,
            *final(self) == (RelStore {
                tags: final(self).tags,
                next_id: final(self).next_id,
                query_count: final(self).query_count,
                ..*old(self)
            }),
    {
        self.query_count = self.query_count + 1;
        let id = self.next_id;
        self.tags.insert(id, TagVo { id, name: name.clone() });
        self.next_id = self.next_id + 1;
        Some(TagVo { id, name: name.clone() })
    }

    pub fn add_category(&mut self, name: &String) -> (r: Option<CategoryVo>)
        requires
            old(self).wf(),
            old(self).query_count < u64::MAX,
            old(self).next_id < i64::MAX,
        ensures
            final(self).wf(),
            final(self).query_count == old(self).query_count + 1,
            final(self).categories@ == old(self).categories@.insert(
                old(self).next_id as int,
                CategoryVo { id: old(self).next_id, name: *name },
            ),
            r == (Some(CategoryVo { id: old(self).next_id, name: *name })),
            final(self).next_id == old(self).next_id + 1,
            *final(self) == (RelStore {
                categories: final(self).categories,
                next_id: final(self).next_id,
                query_count: final(self).query_count,
                ..*old(self)
            }),
    {
        self.query_count = self.query_count + 1;
        let id = self.next_id;
        self.categories.insert(id, CategoryVo { id, name: name.clone() });
        self.next_id = self.next_id + 1;
        Some(CategoryVo { id, name: name.clone() })
    }

    pub fn get_tag_by_id(&mut self, tid: i64) -> (r: Option<TagVo>)
        requires
            old(self).wf(),
            old(self).query_count < u64::MAX,
        ensures
            final(self).wf(),
            RelStore::same_data(*old(self), *final(self)),
            final(self).query_count == old(self).query_count + 1,
            match r {
                Some(t) => old(self).tags@.contains_key(tid as int) && t == old(
                    self,
                ).tags@[tid as int],
                None => !old(self).tags@.contains_key(tid as int),
            },
    {
        self.query_count = self.query_count + 1;
        match self.tags.get(tid) {
            Some(t) => Some(t.clone()),
            None => None,
        }
    }

    pub fn get_topic_by_id(&mut self, tid: i64) -> (r: Option<SimpleTopicVo>)
        requires
            old(self).wf(),
            old(self).query_count < u64::MAX,
        ensures
            final(self).wf(),
            RelStore::same_data(*old(self), *final(self)),
            final(self).query_count == old(self).query_count + 1,
            match r {
                Some(t) => old(self).topics@.contains_key(tid as int) && t == old(
                    self,
                ).topics@[tid as int],
                None => !old(self).topics@.contains_key(tid as int),
            },
    {
        self.query_count = self.query_count + 1;
        match self.topics.get(tid) {
            Some(t) => Some(t.clone()),
            None => None,
        }
    }

    /// The topic listing page the store computes for a page number.
    pub open spec fn topic_page_result(&self, page: i64) -> PageInfoSnap<TopicVo> {
        if self.topic_pages@.contains_key(page as int) {
            self.topic_pages@[page as int]@
        } else {
            PageInfoSnap { page, size: 0, total: 0, data: Seq::empty() }
        }
    }

    pub fn get_topic_by_page(&mut self, page: i64) -> (r: PageInfo<TopicVo>)
        requires
            old(self).wf(),
            old(self).query_count < u64::MAX,
        ensures
            final(self).wf(),
            RelStore::same_data(*old(self), *final(self)),
            final(self).query_count == old(self).query_count + 1,
            r@ == old(self).topic_page_result(page),
    {
        self.query_count = self.query_count + 1;
        proof {
            assert forall|x: TopicVo, y: TopicVo|
                call_ensures(TopicVo::clone, (&x,), y) implies y == x by {}
        }
        match self.topic_pages.get(page) {
            Some(p) => p.clone(),
            None => {
                let r = PageInfo::empty(page);
                proof {
                    assert(r@.data =~= Seq::<TopicVo>::empty());
                }
                r
            },
        }
    }

    /// The row of `id` with the editable fields replaced by a request's.
    pub open spec fn row_with_request(row: BlogContentVo, req: BlogRequest) -> BlogContentSnap {
        BlogContentSnap {
            title: req.title,
            description: req.description,
            content: req.content,
            cover_image: req.cover_image,
            source_url: req.source_url,
            ..row@
        }
    }

    /// Inserts a post under the next id and hands the id back.
    pub fn insert_blog(&mut self, blog_req: &BlogRequest, u_id: i64) -> (r: Result<i64, E>)
        requires
            old(self).wf(),
            old(self).query_count < u64::MAX,
            old(self).next_id < i64::MAX,
        ensures
            final(self).wf(),
            final(self).query_count == old(self).query_count + 1,
            *final(self) == (RelStore {
                blogs: final(self).blogs,
                next_id: final(self).next_id,
                query_count: final(self).query_count,
                ..*old(self)
            }),
            r == (Result::<i64, E>::Ok(old(self).next_id)),
            final(self).next_id == old(self).next_id + 1,
            final(self).blogs@.dom() == old(self).blogs@.dom().insert(old(self).next_id as int),
            forall|k: int|
                old(self).blogs@.contains_key(k) && k != old(self).next_id as int
                    ==> final(self).blogs@[k] == old(self).blogs@[k],
            final(self).blogs@[old(self).next_id as int]@.id == old(self).next_id,
            final(self).blogs@[old(self).next_id as int]@.title == blog_req.title,
            final(self).blogs@[old(self).next_id as int]@.description == blog_req.description,
            final(self).blogs@[old(self).next_id as int]@.content == blog_req.content,
            final(self).blogs@[old(self).next_id as int]@.cover_image == blog_req.cover_image,
            final(self).blogs@[old(self).next_id as int]@.source_url == blog_req.source_url,
            final(self).blogs@[old(self).next_id as int]@.eye_count == 0,
            final(self).blogs@[old(self).next_id as int]@.user.id == u_id,
    {
        self.query_count = self.query_count + 1;
        let id = self.next_id;
        let row = BlogContentVo {
            id,
            description: blog_req.description.clone(),
            title: blog_req.title.clone(),
            cover_image: blog_req.cover_image.clone(),
            source_url: blog_req.source_url.clone(),
            content: blog_req.content.clone(),
            eye_count: 0,
            like_count: 0,
            category: None,
            topic: None,
            tags: Vec::new(),
            user: crate::models::user::SimpleUserVo { id: u_id, nick_name: String::new() },
            create_time: 0,
            update_time: 0,
        };
        self.blogs.insert(id, row);
        self.next_id = self.next_id + 1;
        proof {
            assert(final(self).blogs@.dom() =~= old(self).blogs@.dom().insert(
                old(self).next_id as int,
            ));
        }
        Ok(id)
    }

    /// Updates the editable fields of the post a request names; a row
    /// that does not exist is left alone, as an update of no rows.
    pub fn update_blog(&mut self, req: &BlogRequest, u_id: i64) -> (r: Option<E>)
        requires
            old(self).wf(),
            old(self).query_count < u64::MAX,
            req.id is Some,
        ensures
            final(self).wf(),
            final(self).query_count == old(self).query_count + 1,
            *final(self) == (RelStore {
                blogs: final(self).blogs,
                query_count: final(self).query_count,
                ..*old(self)
            }),
            r is None,
            final(self).blogs@.dom() == old(self).blogs@.dom(),
            forall|k: int|
                old(self).blogs@.contains_key(k) && k != req.id->Some_0 as int
                    ==> final(self).blogs@[k] == old(self).blogs@[k],
            old(self).blogs@.contains_key(req.id->Some_0 as int)
                ==> final(self).blogs@[req.id->Some_0 as int]@ == RelStore::row_with_request(
                old(self).blogs@[req.id->Some_0 as int],
                *req,
            ),
    {
        self.query_count = self.query_count + 1;
        let id = match req.id {
            Some(i) => i,
            None => 0,
        };
        let row = match self.blogs.get(id) {
            Some(b) => Some(b.clone()),
            None => None,
        };
        match row {
            Some(mut b) => {
                b.title = req.title.clone();
                b.description = req.description.clone();
                b.content = req.content.clone();
                b.cover_image = req.cover_image.clone();
                b.source_url = req.source_url.clone();
                self.blogs.insert(id, b);
                proof {
                    assert(final(self).blogs@.dom() =~= old(self).blogs@.dom());
                }
            },
            None => {},
        }
        None
    }

    /// Creates a topic under the next id.
    pub fn add_topic(&mut self, uid: i64, topic: &TopicRequest) -> (r: Option<E>)
        requires
            old(self).wf(),
            old(self).query_count < u64::MAX,
            old(self).next_id < i64::MAX,
        ensures
            final(self).wf(),
            final(self).query_count == old(self).query_count + 1,
            r is None,
            final(self).topics@ == old(self).topics@.insert(
                old(self).next_id as int,
                SimpleTopicVo { id: old(self).next_id, name: topic.name },
            ),
            final(self).next_id == old(self).next_id + 1,
            *final(self) == (RelStore {
                topics: final(self).topics,
                next_id: final(self).next_id,
                query_count: final(self).query_count,
                ..*old(self)
            }),
    {
        self.query_count = self.query_count + 1;
        let id = self.next_id;
        self.topics.insert(id, SimpleTopicVo { id, name: topic.name.clone() });
        self.next_id = self.next_id + 1;
        None
    }

    /// Deletes posts by id; the count of rows that existed.
    pub fn delete_blog_rows(&mut self, ids: &Vec<i64>) -> (r: i64)
        requires
            old(self).wf(),
            old(self).query_count < u64::MAX,
            ids@.len() <= i64::MAX,
        ensures
            final(self).wf(),
            final(self).query_count == old(self).query_count + 1,
            final(self).blogs@ == map_remove_ids(old(self).blogs@, ids@),
            r == removed_count(old(self).blogs@, ids@),
            *final(self) == (RelStore {
                blogs: final(self).blogs,
                query_count: final(self).query_count,
                ..*old(self)
            }),
    {
        self.query_count = self.query_count + 1;
        self.blogs.remove_all(ids)
    }

    /// Deletes categories by id; the count of rows that existed.
    pub fn delete_category_rows(&mut self, ids: &Vec<i64>) -> (r: i64)
        requires
            old(self).wf(),
            old(self).query_count < u64::MAX,
            ids@.len() <= i64::MAX,
        ensures
            final(self).wf(),
            final(self).query_count == old(self).query_count + 1,
            final(self).categories@ == map_remove_ids(old(self).categories@, ids@),
            r == removed_count(old(self).categories@, ids@),
            *final(self) == (RelStore {
                categories: final(self).categories,
                query_count: final(self).query_count,
                ..*old(self)
            }),
    {
        self.query_count = self.query_count + 1;
        self.categories.remove_all(ids)
    }

    /// Deletes tags by id; the count of rows that existed.
    pub fn delete_tag_rows(&mut self, ids: &Vec<i64>) -> (r: i64)
        requires
            old(self).wf(),
            old(self).query_count < u64::MAX,
            ids@.len() <= i64::MAX,
        ensures
            final(self).wf(),
            final(self).query_count == old(self).query_count + 1,
            final(self).tags@ == map_remove_ids(old(self).tags@, ids@),
            r == removed_count(old(self).tags@, ids@),
            *final(self) == (RelStore {
                tags: final(self).tags,
                query_count: final(self).query_count,
                ..*old(self)
            }),
    {
        self.query_count = self.query_count + 1;
        self.tags.remove_all(ids)
    }

    /// Deletes topics by id; the count of rows that existed.
    pub fn delete_topic_rows(&mut self, ids: &Vec<i64>) -> (r: i64)
        requires
            old(self).wf(),
            old(self).query_count < u64::MAX,
            ids@.len() <= i64::MAX,
        ensures
            final(self).wf(),
            final(self).query_count == old(self).query_count + 1,
            final(self).topics@ == map_remove_ids(old(self).topics@, ids@),
            r == removed_count(old(self).topics@, ids@),
            *final(self) == (RelStore {
                topics: final(self).topics,
                query_count: final(self).query_count,
                ..*old(self)
            }),
    {
        self.query_count = self.query_count + 1;
        self.topics.remove_all(ids)
    }

    /// The user row of `username` with its role replaced.
    pub open spec fn with_role(row: UserVo, role: String) -> UserVo {
        UserVo { role, ..row }
    }

    /// Changes a user's role; the count of rows that existed.
    pub fn update_role(&mut self, req: &UpdateRole) -> (r: i64)
        requires
            old(self).wf(),
            old(self).query_count < u64::MAX,
        ensures
            final(self).wf(),
            final(self).query_count == old(self).query_count + 1,
            *final(self) == (RelStore {
                users: final(self).users,
                query_count: final(self).query_count,
                ..*old(self)
            }),
            old(self).users@.contains_key(req.username@) ==> {
                &&& r == 1
                &&& final(self).users@ == old(self).users@.insert(
                    req.username@,
                    RelStore::with_role(old(self).users@[req.username@], req.role),
                )
            },
            !old(self).users@.contains_key(req.username@) ==> {
                &&& r == 0
                &&& final(self).users@ == old(self).users@
            },
    {
        self.query_count = self.query_count + 1;
        let row = match self.users.get(&req.username) {
            Some(u) => Some(u.clone()),
            None => None,
        };
        match row {
            Some(mut u) => {
                u.role = req.role.clone();
                self.users.insert(req.username.clone(), u);
                1
            },
            None => 0,
        }
    }

    /// The stored URL of a file with the given digest, if any.
    pub fn find_by_md5_to_url(&mut self, md5: &String) -> (r: Option<String>)
        requires
            old(self).wf(),
            old(self).query_count < u64::MAX,
        ensures
            final(self).wf(),
            RelStore::same_data(*old(self), *final(self)),
            final(self).query_count == old(self).query_count + 1,
            match r {
                Some(u) => old(self).files@.contains_key(md5@) && u == old(self).files@[md5@],
                None => !old(self).files@.contains_key(md5@),
            },
    {
        self.query_count = self.query_count + 1;
        match self.files.get(md5) {
            Some(u) => Some(u.clone()),
            None => None,
        }
    }

    /// Records a stored file under the digest of its bytes.
    pub fn insert_file(&mut self, md5: &String, url: &String)
        requires
            old(self).wf(),
            old(self).query_count < u64::MAX,
        ensures
            final(self).wf(),
            final(self).query_count == old(self).query_count + 1,
            final(self).files@ == old(self).files@.insert(md5@, *url),
            *final(self) == (RelStore {
                files: final(self).files,
                query_count: final(self).query_count,
                ..*old(self)
            }),
    {
        self.query_count = self.query_count + 1;
        self.files.insert(md5.clone(), url.clone());
    }
}

} // verus!
