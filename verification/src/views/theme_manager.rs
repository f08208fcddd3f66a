//! The theme store: named style sheets and the one that is active.
//!
//! Reading theme files and the environment is the caller's business; the
//! store itself only holds what it was given and answers lookups.

use crate::text::str_eq;
use vstd::prelude::*;
use vstd::string::StringExecFns;

verus! {

/// The style sheet stored under `name` at or after position `i`, first
/// match wins.
pub open spec fn spec_theme_from(ts: Seq<(String, String)>, name: Seq<char>, i: int) -> Option<
    Seq<char>,
>
    decreases ts.len() - i,
{
    if i < 0 || i >= ts.len() {
        None
    } else if ts[i].0@ == name {
        Some(ts[i].1@)
    } else {
        spec_theme_from(ts, name, i + 1)
    }
}

/// The style sheet stored under `name`, if any.
pub open spec fn spec_theme(ts: Seq<(String, String)>, name: Seq<char>) -> Option<Seq<char>> {
    spec_theme_from(ts, name, 0)
}

pub struct ThemeManager {
    pub themes: Vec<(String, String)>,
    pub active_theme: String,
}

/// What `get_active_theme_css` answers: the active theme's sheet, else the
/// default theme's, else nothing.
pub open spec fn spec_active_css(tm: ThemeManager) -> Seq<char> {
    match spec_theme(tm.themes@, tm.active_theme@) {
        Some(css) => css,
        None => match spec_theme(tm.themes@, "default"@) {
            Some(css) => css,
            None => Seq::empty(),
        },
    }
}

impl ThemeManager {
    /// An empty store whose active theme is the default.
    pub fn new() -> (r: ThemeManager)
        ensures
            r.themes@.len() == 0,
            r.active_theme@ == "default"@,
    {
        ThemeManager { themes: Vec::new(), active_theme: String::from_str("default") }
    }

    /// Store one theme.
    pub fn add_theme(&mut self, name: String, css: String)
        ensures
            final(self).themes@ == old(self).themes@.push((name, css)),
            final(self).active_theme == old(self).active_theme,
    {
        self.themes.push((name, css));
    }

    /// Look a name up in the store.
    fn find_theme(&self, name: &str) -> (r: Option<&String>)
        ensures
            match r {
                Some(css) => spec_theme(self.themes@, name@) == Some(css@),
                None => spec_theme(self.themes@, name@) is None,
            },
    {
        let mut i: usize = 0;
        while i < self.themes.len()
            invariant
                0 <= i <= self.themes@.len(),
                spec_theme(self.themes@, name@) == spec_theme_from(self.themes@, name@, i as int),
            decreases self.themes@.len() - i,
        {
            if str_eq(self.themes[i].0.as_str(), name) {
                return Some(&self.themes[i].1);
            }
            i = i + 1;
        }
        None
    }

    /// Make `name` the active theme if it is stored; fall back to the
    /// default otherwise.  Answers whether `name` was found.
    pub fn set_active_theme(&mut self, name: String) -> (found: bool)
        ensures
            final(self).themes@ == old(self).themes@,
            found == (spec_theme(old(self).themes@, name@) is Some),
            found ==> final(self).active_theme == name,
            !found ==> final(self).active_theme@ == "default"@,
    {
        if self.find_theme(name.as_str()).is_some() {
            self.active_theme = name;
            true
        } else {
            self.active_theme = String::from_str("default");
            false
        }
    }

    /// The active theme's style sheet; the default theme's where the
    /// active name is not stored; empty where neither is.
    pub fn get_active_theme_css(&self) -> (r: String)
        ensures
            r@ == spec_active_css(*self),
    {
        let active = self.active_theme.clone();
        match self.find_theme(active.as_str()) {
            Some(css) => css.clone(),
            None => match self.find_theme("default") {
                Some(css) => css.clone(),
                None => String::new(),
            },
        }
    }
}

} // verus!
