use vstd::prelude::*;

use crate::custom_error::Status;

verus! {

/// Uniform response envelope handed to the transport layer.
pub struct R<T> {
    pub code: i32,
    pub message: String,
    pub data: Option<T>,
}

impl<T> R<T> {
    /// Success without a payload.
    pub fn ok() -> (r: R<T>)
        ensures
            r.code == Status::OK,
            r.message@ == "成功"@,
            r.data is None,
    {
        R { code: Status::OK, message: "成功".to_owned(), data: None }
    }

    /// Success carrying `data`.
    pub fn success(data: T) -> (r: R<T>)
        ensures
            r.code == Status::OK,
            r.message@ == "成功"@,
            r.data == Some(data),
    {
        R { code: Status::OK, message: "成功".to_owned(), data: Some(data) }
    }
}

} // verus!
