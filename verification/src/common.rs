//! Shared helpers: input validation, client fingerprinting, random codes.

use vstd::prelude::*;
use vstd::string::StrSliceExecFns;
use vstd::string::StringExecFns;

use crate::text::{dec_seq, ext_of, get_file_extension, split_seq, split_on, seq_has_sub, str_contains, str_eq, u64_to_string};
use crate::trusted::{
    ascii_image_suffix, email_matches, email_regex_match, image_regex_match, image_url_match,
    lower_of, random_six_digit_code, to_lowercase,
};

verus! {

/// Whether `email` is accepted by the email pattern.
pub fn is_valid_email(email: &str) -> (r: bool)
    ensures
        r == email_matches(email@),
{
    email_regex_match(email)
}

/// Whether `img_url` ends in an image extension, up to case.
pub fn is_image_url(img_url: &str) -> (r: bool)
    ensures
        r == image_url_match(img_url@),
        vstd::utf8::is_ascii_chars(img_url@) ==> r == ascii_image_suffix(img_url@),
{
    image_regex_match(img_url)
}

/// The extensions an uploaded image may carry.
pub open spec fn is_image_extension(ext: Seq<char>) -> bool {
    ext == "jpg"@ || ext == "jpeg"@ || ext == "png"@ || ext == "gif"@
}

/// Whether `file_name` carries one of the allowed image extensions.
pub fn is_image_file(file_name: &str) -> (r: bool)
    ensures
        r == is_image_extension(ext_of(file_name@)),
{
    let suffix = get_file_extension(file_name);
    let s = suffix.as_str();
    str_eq(s, "jpg") || str_eq(s, "jpeg") || str_eq(s, "png") || str_eq(s, "gif")
}

proof fn lemma_dec_seq_six_digits(n: int)
    requires
        100000 <= n <= 999999,
    ensures
        dec_seq(n).len() == 6,
{
    let n1 = n / 10;
    let n2 = n1 / 10;
    let n3 = n2 / 10;
    let n4 = n3 / 10;
    let n5 = n4 / 10;
    assert(10000 <= n1 <= 99999);
    assert(1000 <= n2 <= 9999);
    assert(100 <= n3 <= 999);
    assert(10 <= n4 <= 99);
    assert(1 <= n5 <= 9);
    assert(dec_seq(n5).len() == 1);
    assert(dec_seq(n4).len() == 2);
    assert(dec_seq(n3).len() == 3);
    assert(dec_seq(n2).len() == 4);
    assert(dec_seq(n1).len() == 5);
}

/// A fresh six-digit verification code.
pub fn get_random_code_number() -> (r: String)
    ensures
        r@.len() == 6,
        exists|n: int| 100000 <= n <= 999999 && r@ == dec_seq(n),
{
    let code = random_six_digit_code();
    let r = u64_to_string(code);
    proof {
        lemma_dec_seq_six_digits(code as int);
    }
    r
}

/// The browser name read off a lowercased user-agent string.
pub open spec fn browser_of(lua: Seq<char>) -> Seq<char> {
    if seq_has_sub(lua, "micromessenger"@) {
        "微信客户端"@
    } else if seq_has_sub(lua, "edg"@) {
        "Edge"@
    } else if seq_has_sub(lua, "chrome"@) {
        "Chrome"@
    } else if seq_has_sub(lua, "firefox"@) {
        "Firefox"@
    } else if seq_has_sub(lua, "safari"@) {
        "Safari"@
    } else {
        Seq::empty()
    }
}

/// The platform line built from a lowercased user-agent string: the
/// operating system and browser, or the string itself when no known
/// system is named in it.
pub open spec fn platform_of(lua: Seq<char>) -> Seq<char> {
    if seq_has_sub(lua, "windows"@) {
        "Windows "@ + browser_of(lua)
    } else if seq_has_sub(lua, "mac"@) {
        "Mac "@ + browser_of(lua)
    } else if seq_has_sub(lua, "android"@) {
        "Android "@ + browser_of(lua)
    } else if seq_has_sub(lua, "iphone"@) || seq_has_sub(lua, "ipad"@) {
        "iOS "@ + browser_of(lua)
    } else {
        lua
    }
}

fn browser_str(lua: &str) -> (r: String)
    ensures
        r@ == browser_of(lua@),
{
    if str_contains(lua, "micromessenger") {
        "微信客户端".to_owned()
    } else if str_contains(lua, "edg") {
        "Edge".to_owned()
    } else if str_contains(lua, "chrome") {
        "Chrome".to_owned()
    } else if str_contains(lua, "firefox") {
        "Firefox".to_owned()
    } else if str_contains(lua, "safari") {
        "Safari".to_owned()
    } else {
        String::new()
    }
}

/// Operating system and browser of a client, read off its user-agent.
pub fn get_client_platform_info(user_agent: &str) -> (r: String)
    ensures
        user_agent@.len() == 0 ==> r@ == "Unknown"@,
        user_agent@.len() > 0 ==> r@ == platform_of(lower_of(user_agent@)),
{
    if user_agent.is_empty() {
        return "Unknown".to_owned();
    }
    let lua = to_lowercase(user_agent);
    let l = lua.as_str();
    let os: &'static str = if str_contains(l, "windows") {
        "Windows "
    } else if str_contains(l, "mac") {
        "Mac "
    } else if str_contains(l, "android") {
        "Android "
    } else if str_contains(l, "iphone") || str_contains(l, "ipad") {
        "iOS "
    } else {
        return lua;
    };
    let browser = browser_str(l);
    let mut r = os.to_owned();
    r.append(browser.as_str());
    r
}

/// The display line built from a raw region record: country, province
/// and city, separated by spaces; an unreadable record shows as unknown.
pub open spec fn region_display(raw: Seq<char>) -> Seq<char> {
    let parts = split_seq(raw, '|');
    if parts.len() >= 4 {
        parts[0] + " "@ + parts[2] + " "@ + parts[3]
    } else {
        "未知"@
    }
}

/// Formats a raw region record for display.
pub fn format_region(raw: &str) -> (r: String)
    ensures
        r@ == region_display(raw@),
{
    let parts = split_on(raw, '|');
    if parts.len() >= 4 {
        proof {
            assert(parts@.map_values(|p: String| p@)[0] == parts@[0]@);
            assert(parts@.map_values(|p: String| p@)[2] == parts@[2]@);
            assert(parts@.map_values(|p: String| p@)[3] == parts@[3]@);
        }
        let mut r = parts[0].clone();
        r.append(" ");
        r.append(parts[2].as_str());
        r.append(" ");
        r.append(parts[3].as_str());
        proof {
            reveal_strlit(" ");
            assert(r@ =~= region_display(raw@));
        }
        r
    } else {
        "未知".to_owned()
    }
}

/// City line of a client's address: country, province and city of the
/// region record the lookup collaborator fetched, or the unknown marker
/// when the lookup answered nothing.
pub fn get_client_ip_city(region: Option<&String>) -> (r: String)
    ensures
        region matches Some(raw) ==> r@ == region_display(raw@),
        region is None ==> r@ == "未知"@,
{
    match region {
        Some(raw) => format_region(raw.as_str()),
        None => "未知".to_owned(),
    }
}

/// Raw region record of a client's address for response headers, or the
/// unknown marker when the lookup answered nothing.
pub fn get_client_ip_city_for_header(region: Option<String>) -> (r: String)
    ensures
        region matches Some(raw) ==> r == raw,
        region is None ==> r@ == "未知"@,
{
    match region {
        Some(raw) => raw,
        None => "未知".to_owned(),
    }
}

} // verus!
