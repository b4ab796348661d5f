//! The user service: profile read-through, login and logout over the
//! single-active-token cache, registration, and the outbound email
//! requests whose delivery the transport collaborator performs.

use vstd::prelude::*;
use vstd::string::StringExecFns;

use crate::common::{get_random_code_number, is_valid_email};
use crate::custom_error::{E, Status};
use crate::kv_store::{Expiring, KvStore};
use crate::models::user::UserVo;
use crate::redis_keys::DAY;
use crate::rel_store::RelStore;
use crate::request::email_request::EmailRequest;
use crate::request::user_request::{
    registration_error, ContactRequest, UserRegisteredRequest, UserRequest,
};
use crate::trusted::{email_matches, md5_hex, md5_hex_of, trimmed_of};
use crate::user_cache::UserCache;
use crate::website_info::{get_default_blog_config_info, BlogConfigInfo};

verus! {

/// The profile a lookup of `username` observes: the fresh cached
/// verdict when there is one, else the store row.
pub open spec fn effective_user(
    store: KvStore,
    rel: RelStore,
    username: Seq<char>,
    now: u64,
) -> Option<UserVo> {
    if store.user_info@.contains_key(username) && store.user_info@[username].fresh(now) {
        store.user_info@[username].value
    } else if rel.users@.contains_key(username) {
        Some(rel.users@[username])
    } else {
        None
    }
}

/// Whether a login attempt matches a stored profile.
pub open spec fn credentials_match(req: UserRequest, user: UserVo) -> bool {
    req.username@ == user.username@ && md5_hex_of(vstd::utf8::encode_utf8(req.password@))
        == user.password@
}


/// How one profile read relates the states before (`s0`, `r0`) and
/// after (`s1`, `r1`) and its result: a fresh cached verdict is served
/// without a query; a miss queries the store, caching a found row with
/// the profile TTL and recording nothing for an absent one.
pub open spec fn user_get_spec(
    s0: KvStore,
    r0: RelStore,
    s1: KvStore,
    r1: RelStore,
    res: Option<UserVo>,
    username: Seq<char>,
    now: u64,
) -> bool {
    &&& RelStore::same_data(r0, r1)
    &&& s1 == (KvStore { user_info: s1.user_info, ..s0 })
    &&& res == effective_user(s0, r0, username, now)
    &&& ((s0.user_info@.contains_key(username) && s0.user_info@[username].fresh(now)) ==> {
        &&& s1 == s0
        &&& r1.query_count == r0.query_count
    })
    &&& (!(s0.user_info@.contains_key(username) && s0.user_info@[username].fresh(now)) ==> {
        &&& r1.query_count == r0.query_count + 1
        &&& (r0.users@.contains_key(username) ==> s1.user_info@ == s0.user_info@.insert(
            username,
            Expiring {
                value: Some(r0.users@[username]),
                expires_at: (now + crate::redis_keys::USER_INFO_KEY_EXPIRE) as u64,
            },
        ))
        &&& (!r0.users@.contains_key(username) ==> s1 == s0)
    })
}

/// Orchestrates the user caches in front of the store.
pub struct UserService {
    pub cache: UserCache,
}

impl UserService {
    pub fn new() -> UserService {
        UserService { cache: UserCache::new() }
    }

    /// One profile by username: read-through with the profile TTL. A
    /// found row is cached; an absent row is not recorded.
    pub fn get_user(&self, store: &mut KvStore, rel: &mut RelStore, username: &String, now: u64)
        -> (r: Option<UserVo>)
        requires
            old(store).wf(),
            old(rel).wf(),
            old(rel).query_count < u64::MAX,
            now + crate::redis_keys::USER_INFO_KEY_EXPIRE <= u64::MAX,
        ensures
            final(store).wf(),
            final(rel).wf(),
            user_get_spec(*old(store), *old(rel), *final(store), *final(rel), r, username@, now),
    {
        let option = self.cache.get_user(store, username, now);
        match option {
            Some(cached) => cached,
            None => {
                let user = rel.get_user_by_username(username);
                match user {
                    Some(u) => {
                        let optional = Some(u);
                        self.cache.set_user(store, username, &optional, now);
                        optional
                    },
                    None => None,
                }
            },
        }
    }

    /// Login. The checks run against the effective profile; on success
    /// the token issued by the signing collaborator is stored as the
    /// user's single active token and handed back.
    pub fn login_user(
        &self,
        store: &mut KvStore,
        rel: &mut RelStore,
        user_request: &UserRequest,
        token: &String,
        now: u64,
        expire_days: u64,
    ) -> (r: Result<String, E>)
        requires
            old(store).wf(),
            old(rel).wf(),
            old(rel).query_count < u64::MAX,
            now + crate::redis_keys::USER_INFO_KEY_EXPIRE <= u64::MAX,
            expire_days * DAY + now <= u64::MAX,
        ensures
            final(store).wf(),
            final(rel).wf(),
            RelStore::same_data(*old(rel), *final(rel)),
            *final(store) == (KvStore {
                user_info: final(store).user_info,
                user_token: final(store).user_token,
                ..*old(store)
            }),
            (trimmed_of(user_request.username@).len() == 0 || trimmed_of(
                user_request.password@,
            ).len() == 0) ==> {
                &&& r matches Err(e) && e.code == Status::CHECK_DATA_ERROR
                &&& *final(store) == *old(store)
                &&& *final(rel) == *old(rel)
            },
            (trimmed_of(user_request.username@).len() > 0 && trimmed_of(
                user_request.password@,
            ).len() > 0 && effective_user(*old(store), *old(rel), user_request.username@, now)
                is None) ==> (r matches Err(e) && e.code == Status::USER_NOT_FOUND_ERROR),
            (trimmed_of(user_request.username@).len() > 0 && trimmed_of(
                user_request.password@,
            ).len() > 0 && effective_user(*old(store), *old(rel), user_request.username@, now)
                is Some) ==> (if credentials_match(
                *user_request,
                effective_user(*old(store), *old(rel), user_request.username@, now)->Some_0,
            ) {
                r == (Result::<String, E>::Ok(*token)) && final(store).user_token@
                    == old(store).user_token@.insert(
                    effective_user(
                        *old(store),
                        *old(rel),
                        user_request.username@,
                        now,
                    )->Some_0.username@,
                    Expiring { value: *token, expires_at: (now + expire_days * DAY) as u64 },
                )
            } else {
                (r matches Err(e) && e.code == Status::PASSWORD_VALIDATE_ERROR)
                    && final(store).user_token@ == old(store).user_token@
            }),
    {
        let check = user_request.check();
        if !check {
            return Err(E::error(Status::CHECK_DATA_ERROR, "账号或密码有空".to_owned()));
        }
        let user = self.get_user(store, rel, &user_request.username, now);
        let user = match user {
            None => {
                return Err(
                    E::error(Status::USER_NOT_FOUND_ERROR, "该用户找不到".to_owned()),
                );
            },
            Some(u) => u,
        };
        let check = user_request.check_user(&user);
        if check {
            self.cache.set_token(store, &user.username, token, now, expire_days);
            Ok(token.clone())
        } else {
            Err(E::error(Status::PASSWORD_VALIDATE_ERROR, "密码错误".to_owned()))
        }
    }

    /// Registration. The request must pass validation, present the code
    /// stored for its address, and name a free username and email; the
    /// password field is replaced by its digest before the insert.
    pub fn registered_user(
        &self,
        store: &mut KvStore,
        rel: &mut RelStore,
        user: &mut UserRegisteredRequest,
        now: u64,
    ) -> (r: Option<E>)
        requires
            old(store).wf(),
            old(rel).wf(),
            old(rel).query_count + 2 <= u64::MAX,
            old(rel).next_id < i64::MAX,
        ensures
            final(store).wf(),
            final(rel).wf(),
            *final(store) == *old(store),
            registration_error(
                old(user).username@,
                old(user).nick_name@,
                old(user).password@,
                old(user).email@,
                old(user).icon@,
                old(user).code@,
            ) matches Some(m) ==> {
                &&& r matches Some(e) && e.code == Status::CHECK_DATA_ERROR && e.message@ == m
                &&& *final(rel) == *old(rel)
                &&& *final(user) == *old(user)
            },
            registration_error(
                old(user).username@,
                old(user).nick_name@,
                old(user).password@,
                old(user).email@,
                old(user).icon@,
                old(user).code@,
            ) is None ==> {
                &&& (!(old(store).email_code@.contains_key(old(user).email@)
                    && old(store).email_code@[old(user).email@].fresh(now)
                    && old(store).email_code@[old(user).email@].value@ == old(user).code@)
                    ==> (r matches Some(e) && e.code == Status::EMAIL_ERROR)
                    && *final(rel) == *old(rel))
                &&& ((old(store).email_code@.contains_key(old(user).email@)
                    && old(store).email_code@[old(user).email@].fresh(now)
                    && old(store).email_code@[old(user).email@].value@ == old(user).code@)
                    ==> (if old(rel).users@.contains_key(
                    old(user).username@,
                ) || old(rel).emails@.contains_key(old(user).email@) {
                    (r matches Some(e) && e.code == Status::DATABASE_ERROR)
                } else {
                    r is None && final(user).password@ == md5_hex_of(
                        vstd::utf8::encode_utf8(old(user).password@),
                    ) && final(rel).users@.contains_key(old(user).username@)
                        && final(rel).users@[old(user).username@].password@ == md5_hex_of(
                        vstd::utf8::encode_utf8(old(user).password@),
                    )
                }))
            },
    {
        let check_message = user.check();
        if let Some(m) = check_message {
            return Some(E::error(Status::CHECK_DATA_ERROR, m));
        }
        let redis_email_code = self.cache.get_email_code(store, &user.email, now);
        let code_ok = match redis_email_code {
            Some(c) => c == user.code,
            None => false,
        };
        if !code_ok {
            return Some(E::error(Status::EMAIL_ERROR, "错误的验证码".to_owned()));
        }
        match rel.user_is_exists(&user.username, &user.email) {
            None => {
                let md5_password = md5_hex(user.password.as_str().as_bytes());
                user.password = md5_password;
                rel.insert_user(user)
            },
            Some(e) => Some(e),
        }
    }

    /// Builds the verification email for an address: a fresh six-digit
    /// code as the message body. Delivery and the subsequent recording
    /// of the code are the caller's steps.
    pub fn send_mail_request(&self, email: &String) -> (r: Result<EmailRequest, E>)
        ensures
            !email_matches(email@) ==> (r matches Err(e) && e.code == Status::EMAIL_ERROR),
            email_matches(email@) ==> (r matches Ok(req) && req.to@ == email@ && req.subject@
                == "Yuice 验证码"@ && req.message@.len() == 6),
    {
        let is_email = is_valid_email(email.as_str());
        if !is_email {
            return Err(E::error(Status::EMAIL_ERROR, "错误的邮箱格式".to_owned()));
        }
        let random_code = get_random_code_number();
        Ok(
            EmailRequest {
                to: email.clone(),
                subject: "Yuice 验证码".to_owned(),
                message: random_code,
            },
        )
    }

    /// Records the emailed code under the address, once delivery
    /// succeeded.
    pub fn record_email_code(&self, store: &mut KvStore, email: &String, code: &String, now: u64)
        requires
            old(store).wf(),
            now + crate::redis_keys::EMAIL_CODE_KEY_EXPIRE <= u64::MAX,
        ensures
            final(store).wf(),
            *final(store) == (KvStore { email_code: final(store).email_code, ..*old(store) }),
            final(store).email_code@ == old(store).email_code@.insert(
                email@,
                Expiring {
                    value: *code,
                    expires_at: (now + crate::redis_keys::EMAIL_CODE_KEY_EXPIRE) as u64,
                },
            ),
    {
        self.cache.set_email_code(store, email, code, now);
    }

    /// Builds the contact-form email to the site owner. Delivery is the
    /// caller's step.
    pub fn contact_me(&self, req: &ContactRequest, my_email: &String) -> (r: Result<
        EmailRequest,
        E,
    >)
        ensures
            crate::request::user_request::contact_error(
                req.name@,
                req.email@,
                req.subject@,
                req.content@,
            ) matches Some(m) ==> (r matches Err(e) && e.code == Status::CHECK_DATA_ERROR
                && e.message@ == m),
            crate::request::user_request::contact_error(
                req.name@,
                req.email@,
                req.subject@,
                req.content@,
            ) is None ==> (r matches Ok(out) && out.to@ == my_email@ && out.subject@
                == req.subject@ && out.message@ == "<h3>"@ + req.subject@
                + "</h3><p>对方名字: "@ + req.name@ + "</p><p>对方邮箱: "@ + req.email@
                + "</p>留言内容:<p>"@ + req.content@ + "</p>"@),
    {
        if let Some(e) = req.check() {
            return Err(E::error(Status::CHECK_DATA_ERROR, e));
        }
        let mut html_content = "<h3>".to_owned();
        html_content.append(req.subject.as_str());
        html_content.append("</h3><p>对方名字: ");
        html_content.append(req.name.as_str());
        html_content.append("</p><p>对方邮箱: ");
        html_content.append(req.email.as_str());
        html_content.append("</p>留言内容:<p>");
        html_content.append(req.content.as_str());
        html_content.append("</p>");
        Ok(
            EmailRequest {
                to: my_email.clone(),
                subject: req.subject.clone(),
                message: html_content,
            },
        )
    }

    /// The site configuration: the stored blob, or the default one.
    pub fn get_website_config(&self, store: &KvStore) -> (r: BlogConfigInfo)
        ensures
            store.website_config matches Some(w) ==> r@ == w@,
            store.website_config is None ==> r@.icon.len() == 4,
    {
        match self.cache.get_website_config(store) {
            Some(e) => e,
            None => get_default_blog_config_info(),
        }
    }

    /// The user's stored session token, while fresh.
    pub fn get_user_token(&self, store: &KvStore, username: &String, now: u64) -> (r: Option<
        String,
    >)
        requires
            store.wf(),
        ensures
            r is Some ==> store.user_token@.contains_key(username@)
                && store.user_token@[username@].fresh(now)
                && r->Some_0 == store.user_token@[username@].value,
            r is None ==> (store.user_token@.contains_key(username@)
                ==> !store.user_token@[username@].fresh(now)),
    {
        self.cache.get_token(store, username, now)
    }

    /// Logout: drops the stored token.
    pub fn logout(&self, store: &mut KvStore, username: &String) -> (r: bool)
        requires
            old(store).wf(),
        ensures
            r,
            final(store).wf(),
            *final(store) == (KvStore { user_token: final(store).user_token, ..*old(store) }),
            final(store).user_token@ == old(store).user_token@.remove(username@),
    {
        self.cache.remove_user_token(store, username)
    }
}

} // verus!
