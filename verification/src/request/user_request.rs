use vstd::prelude::*;
use vstd::string::StrSliceExecFns;

use crate::common::{is_image_url, is_valid_email};
use crate::models::user::UserVo;
use crate::trusted::{email_matches, image_url_match, md5_hex, md5_hex_of, str_trim, trimmed_of};

verus! {

/// A login attempt.
pub struct UserRequest {
    pub username: String,
    pub password: String,
}

impl UserRequest {
    /// Neither field may be blank.
    pub fn check(&self) -> (r: bool)
        ensures
            r == (trimmed_of(self.username@).len() > 0 && trimmed_of(self.password@).len() > 0),
    {
        !str_trim(self.username.as_str()).is_empty() && !str_trim(
            self.password.as_str(),
        ).is_empty()
    }

    /// Whether the attempt matches the stored credentials: same username,
    /// and the digest of the presented password equals the stored hash.
    pub fn check_user(&self, user: &UserVo) -> (r: bool)
        ensures
            r == (self.username@ == user.username@ && md5_hex_of(
                vstd::utf8::encode_utf8(self.password@),
            ) == user.password@),
    {
        let md5_password = md5_hex(self.password.as_str().as_bytes());
        self.username == user.username && md5_password == user.password
    }
}

/// A registration request.
pub struct UserRegisteredRequest {
    pub username: String,
    pub nick_name: String,
    pub password: String,
    pub email: String,
    pub icon: String,
    pub code: String,
}

/// The validation verdict on a [`UserRegisteredRequest`]: the first
/// failing rule's message, or nothing when all rules pass. Username and
/// password bounds are over bytes of the encoded string.
pub open spec fn registration_error(
    username: Seq<char>,
    nick_name: Seq<char>,
    password: Seq<char>,
    email: Seq<char>,
    icon: Seq<char>,
    code: Seq<char>,
) -> Option<Seq<char>> {
    if vstd::utf8::encode_utf8(username).len() < 8 || vstd::utf8::encode_utf8(username).len()
        > 16 {
        Some("账号要大于8个并且小于16个字符"@)
    } else if nick_name.len() == 0 {
        Some("用户名称不能为空"@)
    } else if vstd::utf8::encode_utf8(password).len() < 8 || vstd::utf8::encode_utf8(
        password,
    ).len() > 16 {
        Some("密码要大于8个并且小于16个字符"@)
    } else if email.len() == 0 || !email_matches(email) {
        Some("不正确的邮箱格式"@)
    } else if !image_url_match(icon) {
        Some("不正确的图片格式"@)
    } else if code.len() == 0 {
        Some("验证码不能为空"@)
    } else {
        None
    }
}

impl UserRegisteredRequest {
    /// The first validation rule the request breaks, if any.
    pub fn check(&self) -> (r: Option<String>)
        ensures
            match r {
                Some(m) => registration_error(
                    self.username@,
                    self.nick_name@,
                    self.password@,
                    self.email@,
                    self.icon@,
                    self.code@,
                ) == Some(m@),
                None => registration_error(
                    self.username@,
                    self.nick_name@,
                    self.password@,
                    self.email@,
                    self.icon@,
                    self.code@,
                ) is None,
            },
    {
        let ulen = self.username.as_str().as_bytes().len();
        let plen = self.password.as_str().as_bytes().len();
        if ulen < 8 || ulen > 16 {
            Some("账号要大于8个并且小于16个字符".to_owned())
        } else if self.nick_name.as_str().is_empty() {
            Some("用户名称不能为空".to_owned())
        } else if plen < 8 || plen > 16 {
            Some("密码要大于8个并且小于16个字符".to_owned())
        } else if self.email.as_str().is_empty() || !is_valid_email(self.email.as_str()) {
            Some("不正确的邮箱格式".to_owned())
        } else if !is_image_url(self.icon.as_str()) {
            Some("不正确的图片格式".to_owned())
        } else if self.code.as_str().is_empty() {
            Some("验证码不能为空".to_owned())
        } else {
            None
        }
    }
}

/// A message from the contact form.
pub struct ContactRequest {
    pub name: String,
    pub email: String,
    pub subject: String,
    pub content: String,
}

/// The validation verdict on a [`ContactRequest`]: the first failing
/// rule's message, or nothing when all rules pass.
pub open spec fn contact_error(
    name: Seq<char>,
    email: Seq<char>,
    subject: Seq<char>,
    content: Seq<char>,
) -> Option<Seq<char>> {
    if email.len() == 0 || !email_matches(email) {
        Some("错误的邮箱格式"@)
    } else if name.len() == 0 {
        Some("请输入你的名称"@)
    } else if subject.len() == 0 {
        Some("请输入主题内容"@)
    } else if content.len() == 0 {
        Some("请输入消息内容"@)
    } else {
        None
    }
}

impl ContactRequest {
    /// The first validation rule the request breaks, if any.
    pub fn check(&self) -> (r: Option<String>)
        ensures
            match r {
                Some(m) => contact_error(self.name@, self.email@, self.subject@, self.content@)
                    == Some(m@),
                None => contact_error(
                    self.name@,
                    self.email@,
                    self.subject@,
                    self.content@,
                ) is None,
            },
    {
        if self.email.as_str().is_empty() || !is_valid_email(self.email.as_str()) {
            Some("错误的邮箱格式".to_owned())
        } else if self.name.as_str().is_empty() {
            Some("请输入你的名称".to_owned())
        } else if self.subject.as_str().is_empty() {
            Some("请输入主题内容".to_owned())
        } else if self.content.as_str().is_empty() {
            Some("请输入消息内容".to_owned())
        } else {
            None
        }
    }
}

} // verus!
