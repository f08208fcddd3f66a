//! The anti-forgery check for state-changing requests.
//!
//! A mutating request must carry the token that the CSRF service issued for
//! the submitting session.  Whether the submitted token matches is the
//! service's verdict; this module decides what that verdict means for the
//! request: a failed check is a hard client-error rejection, never a
//! redirect, and it applies whatever the session's authentication state.

use vstd::prelude::*;

verus! {

/// Status code of a rejected state-changing request.
pub const STATUS_UNPROCESSABLE: u16 = 422;

/// The HTTP methods the router registers.
#[derive(Clone, Copy, PartialEq, Eq, Structural)]
pub enum Method {
    Get,
    Post,
    Put,
    Delete,
}

/// Whether a request of this method changes state and therefore must carry
/// a valid anti-forgery token.
pub open spec fn spec_is_mutating(m: Method) -> bool {
    match m {
        Method::Get => false,
        Method::Post => true,
        Method::Put => true,
        Method::Delete => true,
    }
}

pub fn is_mutating(m: Method) -> (r: bool)
    ensures
        r == spec_is_mutating(m),
{
    match m {
        Method::Get => false,
        Method::Post => true,
        Method::Put => true,
        Method::Delete => true,
    }
}

/// Witness that a request passed the anti-forgery check.
pub struct CsrfVerifier;

impl CsrfVerifier {
    /// Decide a request given the CSRF service's verdict on its token.
    /// A non-mutating request always passes.  A mutating request passes if
    /// and only if its token verified; otherwise it is rejected with a 422,
    /// regardless of who is logged in.
    pub fn check(method: Method, token_valid: bool) -> (r: Result<CsrfVerifier, u16>)
        ensures
            r is Ok <==> (!spec_is_mutating(method) || token_valid),
            r matches Err(status) ==> status == STATUS_UNPROCESSABLE,
    {
        if is_mutating(method) && !token_valid {
            Err(STATUS_UNPROCESSABLE)
        } else {
            Ok(CsrfVerifier)
        }
    }
}

} // verus!
