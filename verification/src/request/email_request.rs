use vstd::prelude::*;

verus! {

/// One outbound email: recipient, subject, and body.
#[derive(Debug)]
pub struct EmailRequest {
    pub to: String,
    pub subject: String,
    pub message: String,
}

} // verus!
