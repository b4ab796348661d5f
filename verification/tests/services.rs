use blog_cache::admin_service::AdminService;
use blog_cache::blog_service::BlogService;
use blog_cache::category_service::CategoryService;
use blog_cache::custom_error::{E, Status};
use blog_cache::file_service::{FileService, UploadKind};
use blog_cache::gpt_service::GptService;
use blog_cache::kv_store::KvStore;
use blog_cache::models::user::UserVo;
use blog_cache::page_info::PageInfo;
use blog_cache::rel_store::RelStore;
use blog_cache::request::admin_request::UpdateRole;
use blog_cache::request::user_request::{ContactRequest, UserRegisteredRequest, UserRequest};
use blog_cache::result::R;
use blog_cache::search_request::SearchQuery;
use blog_cache::tag_service::TagService;
use blog_cache::topic_service::TopicService;
use blog_cache::user_service::UserService;
use blog_cache::website_info::get_default_blog_config_info;

fn stored_user(name: &str) -> UserVo {
    UserVo {
        id: 9,
        username: name.to_string(),
        // md5("password123")
        password: "482c811da5d5b4bc6d497ffa98491e38".to_string(),
        nick_name: "nick".to_string(),
        role: "user".to_string(),
        icon: "i.png".to_string(),
    }
}

#[test]
fn user_read_through() {
    let mut store = KvStore::new();
    let mut rel = RelStore::new();
    rel.users.insert("li".to_string(), stored_user("li"));
    let svc = UserService::new();

    let u = svc.get_user(&mut store, &mut rel, &"li".to_string(), 0).unwrap();
    assert_eq!(u.nick_name, "nick");
    assert_eq!(rel.query_count, 1);
    let again = svc.get_user(&mut store, &mut rel, &"li".to_string(), 10).unwrap();
    assert_eq!(again.username, "li");
    assert_eq!(rel.query_count, 1, "the profile must be served from cache");
    // After the 30-minute TTL the entry lapses.
    svc.get_user(&mut store, &mut rel, &"li".to_string(), 1800).unwrap();
    assert_eq!(rel.query_count, 2);
}

#[test]
fn login_paths() {
    let mut store = KvStore::new();
    let mut rel = RelStore::new();
    rel.users.insert("li".to_string(), stored_user("li"));
    let svc = UserService::new();
    let token = "signed.jwt".to_string();

    let blank = UserRequest { username: " ".to_string(), password: "x".to_string() };
    assert_eq!(
        svc.login_user(&mut store, &mut rel, &blank, &token, 0, 7).unwrap_err().code,
        Status::CHECK_DATA_ERROR
    );

    let unknown = UserRequest { username: "who".to_string(), password: "x".to_string() };
    assert_eq!(
        svc.login_user(&mut store, &mut rel, &unknown, &token, 0, 7).unwrap_err().code,
        Status::USER_NOT_FOUND_ERROR
    );

    let wrong = UserRequest { username: "li".to_string(), password: "nope".to_string() };
    assert_eq!(
        svc.login_user(&mut store, &mut rel, &wrong, &token, 0, 7).unwrap_err().code,
        Status::PASSWORD_VALIDATE_ERROR
    );

    let good = UserRequest { username: "li".to_string(), password: "password123".to_string() };
    let issued = svc.login_user(&mut store, &mut rel, &good, &token, 0, 7).unwrap();
    assert_eq!(issued, token);
    assert_eq!(svc.get_user_token(&store, &"li".to_string(), 1), Some(token.clone()));
    assert!(svc.logout(&mut store, &"li".to_string()));
    assert_eq!(svc.get_user_token(&store, &"li".to_string(), 1), None);
}

#[test]
fn registration_flow() {
    let mut store = KvStore::new();
    let mut rel = RelStore::new();
    let svc = UserService::new();
    let mut req = UserRegisteredRequest {
        username: "longenough".to_string(),
        nick_name: "nick".to_string(),
        password: "secret1234".to_string(),
        email: "a@b.co".to_string(),
        icon: "i.png".to_string(),
        code: "123456".to_string(),
    };

    // No code was ever stored for the address.
    let err = svc.registered_user(&mut store, &mut rel, &mut req, 0).unwrap();
    assert_eq!(err.code, Status::EMAIL_ERROR);

    svc.record_email_code(&mut store, &"a@b.co".to_string(), &"123456".to_string(), 0);
    assert!(svc.registered_user(&mut store, &mut rel, &mut req, 30).is_none());
    assert_eq!(req.password, "bdfc2db0aa599f5919e565c328216a51", "the digest replaces the password");
    let row = rel.users.get(&"longenough".to_string()).unwrap();
    assert_eq!(row.password, req.password);

    // The same username or address cannot register twice.
    let mut again = UserRegisteredRequest {
        username: "longenough".to_string(),
        nick_name: "n2".to_string(),
        password: "secret1234".to_string(),
        email: "a@b.co".to_string(),
        icon: "i.png".to_string(),
        code: "123456".to_string(),
    };
    svc.record_email_code(&mut store, &"a@b.co".to_string(), &"123456".to_string(), 0);
    let err = svc.registered_user(&mut store, &mut rel, &mut again, 30).unwrap();
    assert_eq!(err.code, Status::DATABASE_ERROR);
}

#[test]
fn email_code_expires() {
    let mut store = KvStore::new();
    let svc = UserService::new();
    svc.record_email_code(&mut store, &"a@b.co".to_string(), &"111111".to_string(), 0);
    assert_eq!(
        svc.cache.get_email_code(&store, &"a@b.co".to_string(), 59),
        Some("111111".to_string())
    );
    assert_eq!(svc.cache.get_email_code(&store, &"a@b.co".to_string(), 60), None);
}

#[test]
fn mail_requests() {
    let svc = UserService::new();
    assert_eq!(
        svc.send_mail_request(&"bad".to_string()).unwrap_err().code,
        Status::EMAIL_ERROR
    );
    let req = svc.send_mail_request(&"a@b.co".to_string()).unwrap();
    assert_eq!(req.to, "a@b.co");
    assert_eq!(req.subject, "Yuice 验证码");
    assert_eq!(req.message.len(), 6);

    let contact = ContactRequest {
        name: "n".to_string(),
        email: "a@b.co".to_string(),
        subject: "hi".to_string(),
        content: "text".to_string(),
    };
    let mail = svc.contact_me(&contact, &"me@site.io".to_string()).unwrap();
    assert_eq!(mail.to, "me@site.io");
    assert_eq!(
        mail.message,
        "<h3>hi</h3><p>对方名字: n</p><p>对方邮箱: a@b.co</p>留言内容:<p>text</p>"
    );
}

#[test]
fn website_config_defaults() {
    let mut store = KvStore::new();
    let svc = UserService::new();
    let default = svc.get_website_config(&store);
    assert_eq!(default.icon.len(), 4);
    let mut custom = get_default_blog_config_info();
    custom.name = Some("mine".to_string());
    svc.cache.set_website_config(&mut store, custom);
    assert_eq!(svc.get_website_config(&store).name, Some("mine".to_string()));
}

#[test]
fn category_list_read_through() {
    let mut store = KvStore::new();
    let mut rel = RelStore::new();
    let svc = CategoryService::new();
    svc.add_category(&mut rel, &"rust".to_string());
    let first = svc.get_category_for_cache(&mut store, &mut rel);
    assert_eq!(first.len(), 1);
    assert_eq!(first[0].name, "rust");
    let queries = rel.query_count;
    let warm = svc.get_category_for_cache(&mut store, &mut rel);
    assert_eq!(warm.len(), 1);
    assert_eq!(rel.query_count, queries, "the list must come from cache");
}

#[test]
fn tag_lookup_and_sample() {
    let mut store = KvStore::new();
    let mut rel = RelStore::new();
    let svc = TagService::new();
    let t = svc.add_tag(&mut rel, &"sys".to_string()).unwrap();
    assert_eq!(t.name, "sys");

    let found = svc.get_tag_by_id(&mut store, &mut rel, t.id).unwrap();
    assert_eq!(found.name, "sys");
    let queries = rel.query_count;
    svc.get_tag_by_id(&mut store, &mut rel, t.id).unwrap();
    assert_eq!(rel.query_count, queries, "a tag hit must not query the store");
    assert!(svc.get_tag_by_id(&mut store, &mut rel, 999).is_none());

    for i in 0..30 {
        svc.add_tag(&mut rel, &format!("tag{}", i));
    }
    let sample = svc.get_random_tag(&mut store, &mut rel);
    assert_eq!(sample.len(), 20, "the sample is capped at the fixed size");
    let small_sample = {
        let mut small_store = KvStore::new();
        let mut small_rel = RelStore::new();
        svc.add_tag(&mut small_rel, &"only".to_string());
        svc.get_random_tag(&mut small_store, &mut small_rel)
    };
    assert_eq!(small_sample.len(), 1);
    assert_eq!(small_sample[0].name, "only");
}

#[test]
fn topic_caches() {
    let mut store = KvStore::new();
    let mut rel = RelStore::new();
    let svc = TopicService::new();
    rel.topic_pages.insert(
        1,
        PageInfo { page: 1, size: 20, total: 1, data: Vec::new() },
    );

    let p = svc.get_topic_list_by_page(&mut store, &mut rel, 1, 0);
    assert_eq!(p.total, 1);
    let queries = rel.query_count;
    svc.get_topic_list_by_page(&mut store, &mut rel, 1, 10);
    assert_eq!(rel.query_count, queries, "the first page must be warm");
    svc.get_topic_list_by_page(&mut store, &mut rel, 2, 10);
    assert_eq!(rel.query_count, queries + 1, "other pages always query");

    // Lookup caches the absent verdict too.
    assert!(svc.get_topic_by_id(&mut store, &mut rel, 5).is_none());
    let queries = rel.query_count;
    assert!(svc.get_topic_by_id(&mut store, &mut rel, 5).is_none());
    assert_eq!(rel.query_count, queries, "the absent topic verdict must be cached");

    let bad = blog_cache::models::topic::TopicRequest {
        id: None,
        name: "t".to_string(),
        desc: "d".to_string(),
        cover: "c.txt".to_string(),
    };
    assert_eq!(
        svc.add_topic(&mut store, &mut rel, 1, bad).unwrap().code,
        Status::CHECK_DATA_ERROR
    );
    let good = blog_cache::models::topic::TopicRequest {
        id: None,
        name: "t".to_string(),
        desc: "d".to_string(),
        cover: "c.png".to_string(),
    };
    assert!(svc.add_topic(&mut store, &mut rel, 1, good).is_none());
    assert!(store.first_page_topic.is_none(), "a new topic drops the cached first page");
}

#[test]
fn recommend_set() {
    let mut store = KvStore::new();
    let mut rel = RelStore::new();
    let svc = BlogService::new();
    assert_eq!(
        svc.set_recommend_blog(&mut store, &mut rel, &vec![1, 2, 3]).unwrap_err().code,
        Status::CHECK_DATA_ERROR
    );
    let out = svc.set_recommend_blog(&mut store, &mut rel, &vec![1, 2, 3, 4]).unwrap();
    assert_eq!(out.len(), 0, "ids that name no post resolve to nothing");
    assert_eq!(svc.get_recommend_blog(&store).len(), 0);
}

#[test]
fn drafts() {
    let mut store = KvStore::new();
    let svc = BlogService::new();
    assert!(svc.get_edit_blog(&store, 8).is_none());
    assert!(svc.set_edit_blog(&mut store, 8, &"draft text".to_string()));
    assert_eq!(svc.get_edit_blog(&store, 8), Some("draft text".to_string()));
}

#[test]
fn admin_deletes_invalidate() {
    let mut store = KvStore::new();
    let mut rel = RelStore::new();
    let admin = AdminService::new();
    let tags = TagService::new();
    let cats = CategoryService::new();

    let t = tags.add_tag(&mut rel, &"a".to_string()).unwrap();
    tags.get_random_tag(&mut store, &mut rel);
    assert!(!store.random_tags.is_empty());
    assert_eq!(admin.delete_tag_ids(&mut store, &mut rel, &vec![t.id], true), 1);
    assert!(store.random_tags.is_empty(), "a tag delete drops the sample set");
    assert_eq!(admin.delete_tag_ids(&mut store, &mut rel, &vec![t.id], true), 0);

    let c = cats.add_category(&mut rel, &"c".to_string()).unwrap();
    cats.get_category_for_cache(&mut store, &mut rel);
    assert!(store.category_list.is_some());
    assert_eq!(admin.delete_category_ids(&mut store, &mut rel, &vec![c.id], true, true), 1);
    assert!(store.category_list.is_none(), "a category delete drops the list");
}

#[test]
fn role_change_drops_profile() {
    let mut store = KvStore::new();
    let mut rel = RelStore::new();
    rel.users.insert("li".to_string(), stored_user("li"));
    let users = UserService::new();
    let admin = AdminService::new();

    users.get_user(&mut store, &mut rel, &"li".to_string(), 0);
    let req = UpdateRole { role: "admin".to_string(), username: "li".to_string() };
    assert_eq!(admin.update_role(&mut store, &mut rel, &req), 1);
    let fresh = users.get_user(&mut store, &mut rel, &"li".to_string(), 1).unwrap();
    assert_eq!(fresh.role, "admin", "the next read must observe the new role");
}

#[test]
fn upload_decisions() {
    let files = FileService::new();
    let bytes = b"hello".to_vec();
    let err = files
        .upload_file(UploadKind::Avatar, true, 1, &"a.txt".to_string(), &bytes, 10, 5)
        .unwrap_err();
    assert_eq!(err.code, Status::CHECK_DATA_ERROR);

    let info = files
        .upload_file(UploadKind::Other, false, 1, &"notes.txt".to_string(), &bytes, 10, 5)
        .unwrap();
    // md5("hello") in lowercase hexadecimal.
    assert_eq!(info.md5, "5d41402abc4b2a76b9719d911017c592");
    assert_eq!(info.new_name, "5d41402abc4b2a76b9719d911017c592.txt");
    assert_eq!(info.size, 5);
    assert!(!info.is_public);

    let big = vec![0u8; 2 * 1024 * 1024];
    let err = files
        .upload_file(UploadKind::Image, true, 1, &"p.png".to_string(), &big, 10, 1)
        .unwrap_err();
    assert_eq!(err.code, Status::CHECK_DATA_ERROR);

    let mut rel = RelStore::new();
    assert!(files.find_by_md5(&mut rel, &info.md5).is_none());
    let mut stored = info;
    stored.url = "/files/x".to_string();
    files.insert_already_file(&mut rel, &stored);
    assert_eq!(files.find_by_md5(&mut rel, &stored.md5), Some("/files/x".to_string()));
}

#[test]
fn envelope_and_errors() {
    let ok: R<i64> = R::ok();
    assert_eq!(ok.code, Status::OK);
    assert_eq!(ok.message, "成功");
    assert!(ok.data.is_none());
    let full = R::success(5i64);
    assert_eq!(full.data, Some(5));
    let e = E::default();
    assert_eq!(e.code, Status::FAIL);
    assert_eq!(e.message, "处理失败");
    let custom = E::error(Status::EDIT_ERROR, "x".to_string());
    assert_eq!(custom.code, 10012);
}

#[test]
fn misc_builders() {
    let q = SearchQuery::new()
        .set_q("rust".to_string())
        .set_offset(10)
        .set_limit(5)
        .set_show_matches_position(true)
        .set_highlight_pre_tag("<em>".to_string())
        .set_highlight_post_tag("</em>".to_string())
        .set_sort(vec!["id:desc".to_string()])
        .set_attributes_to_highlight(vec!["title".to_string()])
        .build();
    assert_eq!(q.q, "rust");
    assert_eq!(q.offset, Some(10));
    assert_eq!(q.limit, Some(5));
    assert!(q.show_matches_position);

    let mut gpt = GptService::new("t0".to_string(), "c0".to_string());
    gpt.update_token("token".to_string(), "t1".to_string());
    assert_eq!(gpt.token, "t1");
    assert_eq!(gpt.cookie, "c0");
    gpt.update_token("cookie".to_string(), "c1".to_string());
    assert_eq!(gpt.cookie, "c1");

    let u = stored_user("li").to_vo();
    assert_eq!(u.username, "li");
    assert_eq!(blog_cache::constants::default_page(), 1);
    assert_eq!(blog_cache::request::blog_request::default_cid(), -1);
}
