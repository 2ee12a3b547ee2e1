//! Classification of HTTP response status codes.
//!
//! The hub signals an expired session with the standard "unauthorized"
//! status, and the token-verification endpoint uses "precondition failed"
//! as a normal (non-error) outcome.  Everything in the 2xx range counts as
//! success.

use vstd::prelude::*;

verus! {

/// The status the hub sends when the session is missing or expired.
pub const UNAUTHORIZED: u16 = 401;

/// The status the token-verification endpoint sends for an invalid token.
pub const PRECONDITION_FAILED: u16 = 412;

/// A status in the 2xx range indicates success.
pub open spec fn is_success(status: u16) -> bool {
    200 <= status < 300
}

/// The session-expired signal.
pub open spec fn is_unauthorized(status: u16) -> bool {
    status == UNAUTHORIZED
}

/// Whether `status` lies in the 2xx success range.
pub fn status_is_success(status: u16) -> (r: bool)
    ensures
        r == is_success(status),
{
    200 <= status && status < 300
}

/// Whether `status` is the session-expired signal.
pub fn status_is_unauthorized(status: u16) -> (r: bool)
    ensures
        r == is_unauthorized(status),
{
    status == UNAUTHORIZED
}

} // verus!
