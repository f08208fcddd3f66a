//! The session as authorization sees it: a closed set of typed attributes.
//!
//! The only attribute the authorization rules read is `user_id`, the
//! authenticated username.  Any further attributes a handler may have stored
//! are kept as a list of key/value pairs so that clearing the session can be
//! stated over everything it holds.

use vstd::prelude::*;

verus! {

/// Server-side state associated with one client.
pub struct SessionState {
    pub user_id: Option<String>,
    pub attrs: Vec<(String, String)>,
}

impl SessionState {
    /// Whether the session carries an authenticated username.
    pub open spec fn spec_is_authenticated(&self) -> bool {
        self.user_id is Some
    }

    /// The username as a sequence of characters, if one is set.
    pub open spec fn spec_user(&self) -> Option<Seq<char>> {
        match self.user_id {
            Some(u) => Some(u@),
            None => None,
        }
    }

    /// A session with nothing set: how the store hands out a fresh one.
    pub fn new() -> (s: SessionState)
        ensures
            s.user_id is None,
            s.attrs@.len() == 0,
    {
        SessionState { user_id: None, attrs: Vec::new() }
    }

    pub fn is_authenticated(&self) -> (r: bool)
        ensures
            r == self.spec_is_authenticated(),
    {
        self.user_id.is_some()
    }

    /// Read the authenticated username, if any.
    pub fn get_user_id(&self) -> (r: Option<&String>)
        ensures
            match r {
                Some(u) => self.user_id == Some(*u),
                None => self.user_id is None,
            },
    {
        self.user_id.as_ref()
    }

    /// Record a successful authentication.  Only `user_id` changes.
    pub fn set_user_id(&mut self, username: String)
        ensures
            final(self).user_id == Some(username),
            final(self).attrs == old(self).attrs,
    {
        self.user_id = Some(username);
    }

    /// Store an unrelated attribute.  `user_id` is untouched.
    pub fn insert_attr(&mut self, key: String, value: String)
        ensures
            final(self).user_id == old(self).user_id,
            final(self).attrs@ == old(self).attrs@.push((key, value)),
    {
        self.attrs.push((key, value));
    }

    /// Destroy everything the session holds, `user_id` and all other
    /// attributes alike.
    pub fn clear(&mut self)
        ensures
            final(self).user_id is None,
            final(self).attrs@.len() == 0,
    {
        self.user_id = None;
        self.attrs = Vec::new();
    }
}

} // verus!
