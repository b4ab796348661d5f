use blog_cache::common::{
    format_region, get_client_ip_city, get_client_ip_city_for_header, get_client_platform_info,
    get_random_code_number, is_image_file, is_image_url, is_valid_email,
};
use blog_cache::text::get_file_extension;
use blog_cache::config::OriginConfig;
use blog_cache::jwt::parse_bearer;
use blog_cache::models::user::UserVo;
use blog_cache::redis_keys::{email_code_key, page_info_key, user_info_key, user_token_key};
use blog_cache::request::admin_request::FileSort;
use blog_cache::request::blog_request::{BlogRequest, Sort};
use blog_cache::request::user_request::{ContactRequest, UserRegisteredRequest, UserRequest};
use blog_cache::text::{i64_to_string, str_contains, str_eq, str_starts_with, u64_to_string};

#[test]
fn decimal_rendering() {
    assert_eq!(u64_to_string(0), "0");
    assert_eq!(u64_to_string(907), "907");
    assert_eq!(i64_to_string(-42), "-42");
    assert_eq!(i64_to_string(1), "1");
}

#[test]
fn key_builders() {
    assert_eq!(user_info_key(&"li".to_string()), "USER-INFO:li");
    assert_eq!(user_token_key(&"li".to_string()), "USER-TOKEN:li");
    assert_eq!(email_code_key(&"a@b.co".to_string()), "EMAIL-CODE:a@b.co");
    assert_eq!(page_info_key(1, &Sort::CREATE, -1), "BLOG-PAGE-INFO:_1_CREATE_-1");
    assert_eq!(page_info_key(3, &Sort::EYE, 12), "BLOG-PAGE-INFO:_3_EYE_12");
}

#[test]
fn file_extensions() {
    assert_eq!(get_file_extension("photo.tar.gz"), "gz");
    assert_eq!(get_file_extension("noext"), "");
    assert_eq!(get_file_extension("dot.at.end."), "");
    assert!(is_image_file("a.png"));
    assert!(!is_image_file("a.PNG"), "the upload check is case-sensitive");
    assert!(!is_image_file("a.txt"));
}

#[test]
fn email_pattern() {
    assert!(is_valid_email("user.name+tag@example.co.uk"));
    assert!(is_valid_email("a@b.co"));
    assert!(!is_valid_email("a@b.c"), "the final part needs two letters");
    assert!(!is_valid_email("nope"));
    assert!(!is_valid_email("two@@x.com"));
}

#[test]
fn image_url_pattern() {
    assert!(is_image_url("https://x/y.jpg"));
    assert!(is_image_url("pic.JPEG"), "the link check is case-insensitive");
    assert!(!is_image_url("doc.pdf"));
}

#[test]
fn string_scans() {
    assert!(str_eq("abc", "abc"));
    assert!(!str_eq("abc", "abd"));
    assert!(str_starts_with("Bearer xyz", "Bearer "));
    assert!(!str_starts_with("Beare", "Bearer "));
    assert!(str_contains("hello world", "lo wo"));
    assert!(!str_contains("hello", "world"));
}

#[test]
fn bearer_parsing() {
    assert_eq!(parse_bearer("Bearer abc.def"), Some("abc.def".to_string()));
    assert_eq!(parse_bearer("Token abc"), None);
}

#[test]
fn region_formatting() {
    assert_eq!(format_region("中国|0|上海|上海市|电信"), "中国 上海 上海市");
    assert_eq!(format_region("short|rec"), "未知");
    let raw = "中国|0|上海|上海市|电信".to_string();
    assert_eq!(get_client_ip_city(Some(&raw)), "中国 上海 上海市");
    assert_eq!(get_client_ip_city(None), "未知");
    assert_eq!(get_client_ip_city_for_header(Some(raw.clone())), raw);
    assert_eq!(get_client_ip_city_for_header(None), "未知");
}

#[test]
fn platform_info() {
    assert_eq!(get_client_platform_info(""), "Unknown");
    assert_eq!(get_client_platform_info("Mozilla WINDOWS Chrome/1.0"), "Windows Chrome");
    assert_eq!(get_client_platform_info("iPhone Safari"), "iOS Safari");
    assert_eq!(
        get_client_platform_info("SomethingElse"),
        "somethingelse",
        "an unknown system echoes the lowered string"
    );
}

#[test]
fn random_code_shape() {
    let code = get_random_code_number();
    assert_eq!(code.len(), 6);
    let n: u64 = code.parse().unwrap();
    assert!((100000..=999999).contains(&n));
}

#[test]
fn origin_splitting() {
    let cfg = OriginConfig { urls: "http://a,http://b,http://c".to_string(), methods: "GET".to_string() };
    assert_eq!(cfg.to_url_vec(), vec!["http://a", "http://b", "http://c"]);
    let lone = OriginConfig { urls: "solo".to_string(), methods: "".to_string() };
    assert_eq!(lone.to_url_vec(), vec!["solo"]);
}

#[test]
fn sort_order_strings() {
    assert_eq!(Sort::CREATE.to_order_by_string("ORDER BY ".to_string()), "ORDER BY create_at desc");
    assert_eq!(Sort::BACK.to_order_by_string("".to_string()), "create_at asc");
    assert_eq!(FileSort::SIZE.to_order_by_string("ORDER BY ".to_string()), "ORDER BY size desc");
    assert_eq!(FileSort::SBACK.to_order_by_string("".to_string()), "size asc");
}

fn blog_request(title: &str, desc: &str, content: &str, cover: &str) -> BlogRequest {
    BlogRequest {
        id: None,
        title: title.to_string(),
        description: desc.to_string(),
        content: content.to_string(),
        source_url: "".to_string(),
        cover_image: cover.to_string(),
        tags: vec![],
        topic: Some(1),
        category: None,
    }
}

#[test]
fn blog_request_checks() {
    assert_eq!(blog_request("t", "d", "c", "x.png").check(), None);
    assert_eq!(
        blog_request("", "d", "c", "x.png").check().unwrap(),
        "博客标题不能小于1个字符并且不能大于50个字符"
    );
    assert_eq!(
        blog_request("t", "d", "c", "x.txt").check().unwrap(),
        "这不是一个图片链接"
    );
    let mut no_target = blog_request("t", "d", "c", "x.png");
    no_target.topic = None;
    assert_eq!(no_target.check().unwrap(), "分类和专题要选择一个");
}

#[test]
fn user_request_checks() {
    let blank = UserRequest { username: "   ".to_string(), password: "p".to_string() };
    assert!(!blank.check());
    let ok = UserRequest { username: "li".to_string(), password: "pw".to_string() };
    assert!(ok.check());
}

#[test]
fn check_user_compares_digest() {
    // md5("password123") in lowercase hexadecimal.
    let stored = UserVo {
        id: 1,
        username: "li".to_string(),
        password: "482c811da5d5b4bc6d497ffa98491e38".to_string(),
        nick_name: "n".to_string(),
        role: "user".to_string(),
        icon: "i.png".to_string(),
    };
    let good = UserRequest { username: "li".to_string(), password: "password123".to_string() };
    assert!(good.check_user(&stored));
    let bad = UserRequest { username: "li".to_string(), password: "password124".to_string() };
    assert!(!bad.check_user(&stored));
}

#[test]
fn registration_checks() {
    let req = UserRegisteredRequest {
        username: "longenough".to_string(),
        nick_name: "nick".to_string(),
        password: "secret1234".to_string(),
        email: "a@b.co".to_string(),
        icon: "i.png".to_string(),
        code: "123456".to_string(),
    };
    assert_eq!(req.check(), None);
    let mut short = UserRegisteredRequest { username: "short".to_string(), ..req };
    assert_eq!(short.check().unwrap(), "账号要大于8个并且小于16个字符");
    short.username = "longenough".to_string();
    short.email = "bad".to_string();
    assert_eq!(short.check().unwrap(), "不正确的邮箱格式");
}

#[test]
fn contact_checks() {
    let req = ContactRequest {
        name: "n".to_string(),
        email: "a@b.co".to_string(),
        subject: "s".to_string(),
        content: "c".to_string(),
    };
    assert_eq!(req.check(), None);
    let bad = ContactRequest { email: "x".to_string(), ..req };
    assert_eq!(bad.check().unwrap(), "错误的邮箱格式");
}
