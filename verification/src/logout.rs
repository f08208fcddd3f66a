//! Logging out: destroy the whole session and go back to the login page.

use crate::gate::{login_path, spec_login_path};
use crate::session::SessionState;
use vstd::prelude::*;
use vstd::string::StringExecFns;

verus! {

/// Clear every attribute the session holds — `user_id` and the rest, set or
/// not — and answer with a redirect to the login page, unconditionally.
pub fn logout(session: &mut SessionState) -> (loc: String)
    ensures
        final(session).user_id is None,
        final(session).attrs@.len() == 0,
        loc@ == spec_login_path(),
{
    session.clear();
    String::from_str(login_path())
}

} // verus!
