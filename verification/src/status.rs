//! HTTP status numbers and their printed form, as the `http` crate (reached
//! through `warp`) defines them.
use vstd::prelude::*;
use warp::http::StatusCode;

verus! {

/// What `StatusCode`'s `Display` prints for a status number: the number, a
/// space and the canonical reason phrase (or a fixed placeholder where the
/// number has none).
pub uninterp spec fn status_text(code: u16) -> Seq<char>;

/// Number of `StatusCode::OK`, which the `http` crate defines as 200.
#[verifier::external_body]
pub(crate) fn ok() -> (code: u16)
    ensures
        code == 200,
{
    StatusCode::OK.as_u16()
}

/// Number of `StatusCode::FOUND`, which the `http` crate defines as 302.
#[verifier::external_body]
pub(crate) fn found() -> (code: u16)
    ensures
        code == 302,
{
    StatusCode::FOUND.as_u16()
}

/// Number of `StatusCode::NOT_FOUND`, which the `http` crate defines as 404.
#[verifier::external_body]
pub(crate) fn not_found() -> (code: u16)
    ensures
        code == 404,
{
    StatusCode::NOT_FOUND.as_u16()
}

/// Number of `StatusCode::INTERNAL_SERVER_ERROR`, which the `http` crate
/// defines as 500.
#[verifier::external_body]
pub(crate) fn internal_server_error() -> (code: u16)
    ensures
        code == 500,
{
    StatusCode::INTERNAL_SERVER_ERROR.as_u16()
}

/// `StatusCode::from_u16` followed by the status code's `Display`.
/// `from_u16` accepts exactly the numbers from 100 to 999, so the error arm
/// is never taken under the precondition. The text is a function of the
/// number alone; it is named, not spelled out.
#[verifier::external_body]
pub(crate) fn render_status(code: u16) -> (text: String)
    requires
        100 <= code < 1000,
    ensures
        text@ == status_text(code),
{
    match StatusCode::from_u16(code) {
        Ok(status) => status.to_string(),
        Err(_) => String::new(),
    }
}

} // verus!
