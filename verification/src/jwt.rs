//! The cache-side half of request authentication: reading the bearer
//! token out of the header and holding it against the user's single
//! stored token. Signature checking is the signing collaborator's part.

use vstd::prelude::*;
use vstd::string::StrSliceExecFns;

use crate::kv_store::KvStore;
use crate::models::user::UserVo;
use crate::text::{has_prefix, str_starts_with};

verus! {

/// A request authenticated as an ordinary user.
pub struct JwtUserRole {
    pub user: UserVo,
}

/// A request authenticated as an administrator.
pub struct JwtAdminRole {
    pub user: UserVo,
}

/// A request authenticated as the super administrator.
pub struct JwtSuperAdminRole {
    pub user: UserVo,
}

/// The claims carried inside a session token.
pub struct Claims {
    pub exp: usize,
    pub iat: usize,
    pub iss: i64,
    pub sub: String,
}

/// The token inside an authorization header: what follows the bearer
/// prefix, or nothing when the prefix is missing.
pub fn parse_bearer(header: &str) -> (r: Option<String>)
    ensures
        has_prefix(header@, "Bearer "@) ==> (r matches Some(t) && t@ == header@.subrange(
            "Bearer "@.len() as int,
            header@.len() as int,
        )),
        !has_prefix(header@, "Bearer "@) ==> r is None,
{
    let prefix = "Bearer ";
    if str_starts_with(header, prefix) {
        let n = header.unicode_len();
        let m = prefix.unicode_len();
        Some(header.substring_char(m, n).to_owned())
    } else {
        None
    }
}

/// Whether the presented token is exactly the user's stored one, still
/// fresh at `now`. A missing or lapsed entry rejects even a token whose
/// signature would verify, which is what makes logout immediate.
pub fn token_matches_cache(store: &KvStore, username: &String, token: &String, now: u64) -> (r:
    bool)
    requires
        store.wf(),
    ensures
        r == (store.user_token@.contains_key(username@) && store.user_token@[username@].fresh(now)
            && store.user_token@[username@].value@ == token@),
{
    match store.user_token.get(username) {
        Some(e) => now < e.expires_at && e.value == *token,
        None => false,
    }
}

} // verus!
