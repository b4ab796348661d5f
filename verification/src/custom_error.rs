use vstd::prelude::*;

verus! {

/// Error carried out of the cache layer and the services around it.
#[derive(Debug)]
pub struct E {
    pub code: i32,
    pub message: String,
}

/// The response codes the platform answers with.
pub struct Status {}

impl Status {
    /// Success.
    pub const OK: i32 = 200;

    /// Generic failure.
    pub const FAIL: i32 = 10000;

    /// Authentication failure.
    pub const AUTHENTICATE_ERROR: i32 = 401;

    /// Authorization failure.
    pub const AUTHORIZED_ERROR: i32 = 403;

    /// Internal server error.
    pub const SERVER_ERROR: i32 = 500;

    /// Request data failed validation.
    pub const CHECK_DATA_ERROR: i32 = 10001;

    /// No such user.
    pub const USER_NOT_FOUND_ERROR: i32 = 10002;

    /// Wrong password.
    pub const PASSWORD_VALIDATE_ERROR: i32 = 10003;

    /// Invalid session token.
    pub const INVALID_TOKEN_ERROR: i32 = 10004;

    /// Relational store failure.
    pub const DATABASE_ERROR: i32 = 10005;

    /// Result set empty.
    pub const DATA_EMPTY_ERROR: i32 = 10006;

    /// Hot blog set could not be read.
    pub const GET_HOT_BLOG_ERROR: i32 = 10007;

    /// Malformed query or parameters.
    pub const QUERY_OR_PARAMS_ERROR: i32 = 10008;

    /// No such post.
    pub const BLOG_NOT_FOUND_ERROR: i32 = 10009;

    /// Outbound request failure.
    pub const HTTP_REQUEST_ERROR: i32 = 10010;

    /// Email delivery failure.
    pub const EMAIL_ERROR: i32 = 10011;

    /// Draft edit failure.
    pub const EDIT_ERROR: i32 = 10012;

    /// Upload failure.
    pub const UPLOAD_FILE_ERROR: i32 = 10013;

    /// Insert failure.
    pub const ADD_ERROR: i32 = 10014;

    /// Delete failure.
    pub const DELETE_ERROR: i32 = 10014;
}

impl E {
    pub fn error(code: i32, message: String) -> (r: E)
        ensures
            r.code == code,
            r.message == message,
    {
        E { code, message }
    }

    pub fn default() -> (r: E)
        ensures
            r.code == Status::FAIL,
            r.message@ == "处理失败"@,
    {
        E { code: Status::FAIL, message: "处理失败".to_owned() }
    }
}

impl Clone for E {
    fn clone(&self) -> (r: Self)
        ensures
            r == *self,
    {
        E { code: self.code, message: self.message.clone() }
    }
}

} // verus!
