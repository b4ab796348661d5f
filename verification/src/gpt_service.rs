//! Credentials of the chat relay. The relay's outbound request runs in
//! the surrounding application; the service only keeps the two secrets
//! it authenticates with.

use vstd::prelude::*;

use crate::text::str_eq;

verus! {

/// The chat relay's credentials.
pub struct GptService {
    pub token: String,
    pub cookie: String,
}

impl GptService {
    pub fn new(token: String, cookie: String) -> (r: Self)
        ensures
            r.token == token,
            r.cookie == cookie,
    {
        GptService { token, cookie }
    }

    /// Replaces the credential `t` names: the token when `t` is
    /// exactly that word, the cookie otherwise.
    pub fn update_token(&mut self, t: String, keyword: String)
        ensures
            t@ == "token"@ ==> final(self).token == keyword && final(self).cookie == old(
                self,
            ).cookie,
            t@ != "token"@ ==> final(self).cookie == keyword && final(self).token == old(
                self,
            ).token,
    {
        if str_eq(t.as_str(), "token") {
            self.token = keyword;
        } else {
            self.cookie = keyword;
        }
    }
}

} // verus!
