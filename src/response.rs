use vstd::prelude::*;

use crate::error::ClientError;
use crate::text::{contains_seq, contains_str};

verus! {

/// Whether an HTTP status is in the success range.
pub open spec fn is_success(status: u16) -> bool {
    200 <= status < 300
}

/// Whether a declared content type admits the body as JSON: it names
/// `application/json`, possibly inside a vendor type.
pub open spec fn is_json_type(content_type: Seq<char>) -> bool {
    contains_seq(content_type, "application/json"@)
}

/// Checks a response before its body is decoded. A status outside the success
/// range fails with `Http`, carrying the status and the body; otherwise a
/// declared content type that does not name JSON fails with
/// `UnexpectedContentType`. An absent content type is accepted.
pub fn check_json_response(status: u16, content_type: Option<&str>, body: &str) -> (r: Result<
    (),
    ClientError,
>)
    ensures
        !is_success(status) ==> (r matches Err(ClientError::Http { status: s, body: b }) && s
            == status && b@ == body@),
        is_success(status) ==> match content_type {
            Some(ct) => if is_json_type(ct@) {
                r is Ok
            } else {
                r matches Err(ClientError::UnexpectedContentType { content_type: c }) && c@
                    == ct@
            },
            None => r is Ok,
        },
{
    if status < 200 || status >= 300 {
        return Err(ClientError::Http { status, body: String::from_str(body) });
    }
    match content_type {
        Some(ct) => {
            if contains_str(ct, "application/json") {
                Ok(())
            } else {
                Err(ClientError::UnexpectedContentType { content_type: String::from_str(ct) })
            }
        },
        None => Ok(()),
    }
}

} // verus!
