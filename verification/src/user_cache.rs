//! The user-side cache manager: profiles, email verification codes, the
//! site configuration blob, and the single active session token per user.

use vstd::prelude::*;

use crate::kv_store::{Expiring, KvStore};
use crate::models::user::UserVo;
use crate::redis_keys::{DAY, EMAIL_CODE_KEY_EXPIRE, USER_INFO_KEY_EXPIRE};
use crate::website_info::BlogConfigInfo;

verus! {

/// Cache operations of the user entities, over an injected store.
pub struct UserCache {}

impl UserCache {
    pub fn new() -> UserCache {
        UserCache {}
    }

    /// Caches the profile found for `username` — an absent result too.
    pub fn set_user(
        &self,
        store: &mut KvStore,
        username: &String,
        user: &Option<UserVo>,
        now: u64,
    ) -> (r: bool)
        requires
            old(store).wf(),
            now + USER_INFO_KEY_EXPIRE <= u64::MAX,
        ensures
            r,
            final(store).wf(),
            *final(store) == (KvStore { user_info: final(store).user_info, ..*old(store) }),
            final(store).user_info@ == old(store).user_info@.insert(
                username@,
                Expiring { value: *user, expires_at: (now + USER_INFO_KEY_EXPIRE) as u64 },
            ),
    {
        let copy: Option<UserVo> = match user {
            Some(u) => Some(u.clone()),
            None => None,
        };
        store.user_info.insert(
            username.clone(),
            Expiring { value: copy, expires_at: now + USER_INFO_KEY_EXPIRE },
        );
        true
    }

    /// The cached verdict on `username` while fresh: a profile, or a
    /// confirmed-absent marker. An absent or lapsed entry is a miss.
    pub fn get_user(&self, store: &KvStore, username: &String, now: u64) -> (r: Option<
        Option<UserVo>,
    >)
        requires
            store.wf(),
        ensures
            r is Some ==> store.user_info@.contains_key(username@)
                && store.user_info@[username@].fresh(now)
                && r->Some_0 == store.user_info@[username@].value,
            r is None ==> (store.user_info@.contains_key(username@)
                ==> !store.user_info@[username@].fresh(now)),
    {
        match store.user_info.get(username) {
            Some(e) => {
                if now < e.expires_at {
                    Some(
                        match &e.value {
                            Some(u) => Some(u.clone()),
                            None => None,
                        },
                    )
                } else {
                    None
                }
            },
            None => None,
        }
    }

    /// Stores the emailed verification code under the address, with its
    /// short TTL.
    pub fn set_email_code(&self, store: &mut KvStore, ip: &String, code: &String, now: u64) -> (r:
        bool)
        requires
            old(store).wf(),
            now + EMAIL_CODE_KEY_EXPIRE <= u64::MAX,
        ensures
            r,
            final(store).wf(),
            *final(store) == (KvStore { email_code: final(store).email_code, ..*old(store) }),
            final(store).email_code@ == old(store).email_code@.insert(
                ip@,
                Expiring { value: *code, expires_at: (now + EMAIL_CODE_KEY_EXPIRE) as u64 },
            ),
    {
        store.email_code.insert(
            ip.clone(),
            Expiring { value: code.clone(), expires_at: now + EMAIL_CODE_KEY_EXPIRE },
        );
        true
    }

    /// The code stored for an address, while fresh at `now`.
    pub fn get_email_code(&self, store: &KvStore, email: &String, now: u64) -> (r: Option<String>)
        requires
            store.wf(),
        ensures
            r is Some ==> store.email_code@.contains_key(email@)
                && store.email_code@[email@].fresh(now)
                && r->Some_0 == store.email_code@[email@].value,
            r is None ==> (store.email_code@.contains_key(email@)
                ==> !store.email_code@[email@].fresh(now)),
    {
        match store.email_code.get(email) {
            Some(e) => {
                if now < e.expires_at {
                    Some(e.value.clone())
                } else {
                    None
                }
            },
            None => None,
        }
    }

    /// The stored site configuration, if any.
    pub fn get_website_config(&self, store: &KvStore) -> (r: Option<BlogConfigInfo>)
        ensures
            match r {
                Some(c) => store.website_config matches Some(w) && c@ == w@,
                None => store.website_config is None,
            },
    {
        match &store.website_config {
            Some(w) => Some(w.clone()),
            None => None,
        }
    }

    /// Overwrites the site configuration blob; no expiry.
    pub fn set_website_config(&self, store: &mut KvStore, config: BlogConfigInfo) -> (r: bool)
        ensures
            r,
            *final(store) == (KvStore {
                website_config: final(store).website_config,
                ..*old(store)
            }),
            final(store).website_config == Some(config),
    {
        store.website_config = Some(config);
        true
    }

    /// Overwrites the session token of `username`: whatever token was
    /// stored before is gone, so at most one is ever valid per user.
    pub fn set_token(
        &self,
        store: &mut KvStore,
        username: &String,
        token: &String,
        now: u64,
        expire_days: u64,
    ) -> (r: bool)
        requires
            old(store).wf(),
            expire_days * DAY + now <= u64::MAX,
        ensures
            r,
            final(store).wf(),
            *final(store) == (KvStore { user_token: final(store).user_token, ..*old(store) }),
            final(store).user_token@ == old(store).user_token@.insert(
                username@,
                Expiring { value: *token, expires_at: (now + expire_days * DAY) as u64 },
            ),
    {
        store.user_token.insert(
            username.clone(),
            Expiring { value: token.clone(), expires_at: now + expire_days * DAY },
        );
        true
    }

    /// Logout: drops the stored token, so later checks against the cache
    /// reject even a signature-valid token.
    pub fn remove_user_token(&self, store: &mut KvStore, username: &String) -> (r: bool)
        requires
            old(store).wf(),
        ensures
            r,
            final(store).wf(),
            *final(store) == (KvStore { user_token: final(store).user_token, ..*old(store) }),
            final(store).user_token@ == old(store).user_token@.remove(username@),
    {
        store.user_token.remove(username);
        true
    }

    /// The stored session token of `username`, while fresh at `now`.
    pub fn get_token(&self, store: &KvStore, username: &String, now: u64) -> (r: Option<String>)
        requires
            store.wf(),
        ensures
            r is Some ==> store.user_token@.contains_key(username@)
                && store.user_token@[username@].fresh(now)
                && r->Some_0 == store.user_token@[username@].value,
            r is None ==> (store.user_token@.contains_key(username@)
                ==> !store.user_token@[username@].fresh(now)),
    {
        match store.user_token.get(username) {
            Some(e) => {
                if now < e.expires_at {
                    Some(e.value.clone())
                } else {
                    None
                }
            },
            None => None,
        }
    }
}

} // verus!
