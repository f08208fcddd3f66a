//! A page under construction: title, content and the odds and ends the
//! handlers set before rendering.

use crate::views::layout::{render_layout, spec_layout_html};
use crate::views::theme_manager::{spec_active_css, ThemeManager};
use vstd::prelude::*;
use vstd::string::StringExecFns;

verus! {

pub struct Page {
    pub title: String,
    pub content: String,
    pub csrf_token: Option<String>,
    pub status: u16,
    pub meta_description: Option<String>,
}

impl Page {
    /// An empty page with the given title.
    pub fn new(title: &str) -> (r: Page)
        ensures
            r.title@ == title@,
            r.content@ == Seq::<char>::empty(),
            r.csrf_token is None,
            r.status == 200u16,
            r.meta_description is None,
    {
        Page {
            title: String::from_str(title),
            content: String::new(),
            csrf_token: None,
            status: 200,
            meta_description: None,
        }
    }

    /// Remember the anti-forgery token the CSRF service issued for this
    /// rendering, if it issued one.
    pub fn with_csrf_token(self, csrf_token: Option<String>) -> (r: Page)
        ensures
            r.csrf_token == csrf_token,
            r.title == self.title,
            r.content == self.content,
            r.status == self.status,
            r.meta_description == self.meta_description,
    {
        Page { csrf_token, ..self }
    }

    pub fn with_status(self, status: u16) -> (r: Page)
        ensures
            r.status == status,
            r.title == self.title,
            r.content == self.content,
            r.csrf_token == self.csrf_token,
            r.meta_description == self.meta_description,
    {
        Page { status, ..self }
    }

    pub fn with_meta_description(self, description: &str) -> (r: Page)
        ensures
            r.meta_description matches Some(d) && d@ == description@,
            r.title == self.title,
            r.content == self.content,
            r.csrf_token == self.csrf_token,
            r.status == self.status,
    {
        Page { meta_description: Some(String::from_str(description)), ..self }
    }

    pub fn add_content(&mut self, content: &str)
        ensures
            final(self).content@ == old(self).content@ + content@,
            final(self).title == old(self).title,
            final(self).csrf_token == old(self).csrf_token,
            final(self).status == old(self).status,
            final(self).meta_description == old(self).meta_description,
    {
        self.content.append(content);
    }

    pub fn set_content(&mut self, content: String)
        ensures
            final(self).content == content,
            final(self).title == old(self).title,
            final(self).csrf_token == old(self).csrf_token,
            final(self).status == old(self).status,
            final(self).meta_description == old(self).meta_description,
    {
        self.content = content;
    }

    pub fn get_csrf_token(&self) -> (r: Option<&String>)
        ensures
            match r {
                Some(t) => self.csrf_token == Some(*t),
                None => self.csrf_token is None,
            },
    {
        self.csrf_token.as_ref()
    }

    /// Render the page inside the layout.  The site title and the theme
    /// store come from the caller; the menu follows the session's
    /// authentication state.
    pub fn render(
        self,
        website_title: &str,
        is_authenticated: bool,
        theme_manager: ThemeManager,
    ) -> (r: String)
        ensures
            r@ == spec_layout_html(
                website_title@,
                self.content@,
                is_authenticated,
                spec_active_css(theme_manager),
            ),
    {
        render_layout(self.content.as_str(), website_title, is_authenticated, theme_manager)
    }
}

} // verus!
