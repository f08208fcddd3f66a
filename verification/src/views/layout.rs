//! The layout: head, header, content and footer stitched into one page.

use crate::views::footer::{spec_footer_html, Footer};
use crate::views::head::{render_head, spec_head_html};
use crate::views::header::{spec_header_html, Header};
use crate::views::theme_manager::{spec_active_css, ThemeManager};
use vstd::prelude::*;
use vstd::string::StringExecFns;

verus! {

/// One whole page: the head with the active theme, the header with the
/// fitting menu, the content inside `<main>`, and the footer.
pub open spec fn spec_layout_html(
    title: Seq<char>,
    content: Seq<char>,
    is_authenticated: bool,
    theme_css: Seq<char>,
) -> Seq<char> {
    r#"
            "#@ + spec_head_html(title, theme_css) + r#"
                "#@ + spec_header_html(title, is_authenticated) + r#"
                <main>
                    "#@ + content + r#"
                </main>
                "#@ + spec_footer_html() + r#"
            </body>
            </html>
            "#@
}

pub struct Layout {
    pub title: String,
    pub content: String,
    pub is_authenticated: bool,
    pub theme_manager: ThemeManager,
}

impl Layout {
    /// Assemble a layout.  The theme store is handed in; loading themes
    /// from disk is the caller's business.
    pub fn new(title: String, content: String, is_authenticated: bool, theme_manager: ThemeManager) -> (r:
        Layout)
        ensures
            r.title == title,
            r.content == content,
            r.is_authenticated == is_authenticated,
            r.theme_manager == theme_manager,
    {
        Layout { title, content, is_authenticated, theme_manager }
    }

    /// Render the whole page.
    pub fn render(self) -> (r: String)
        ensures
            r@ == spec_layout_html(
                self.title@,
                self.content@,
                self.is_authenticated,
                spec_active_css(self.theme_manager),
            ),
    {
        let css = self.theme_manager.get_active_theme_css();
        let head = render_head(self.title.as_str(), css.as_str());
        let header = Header::new(self.title.clone(), self.is_authenticated).render();
        let footer = Footer::render();
        let mut s = String::from_str(
            r#"
            "#,
        );
        s.append(head.as_str());
        s.append(
            r#"
                "#,
        );
        s.append(header.as_str());
        s.append(
            r#"
                <main>
                    "#,
        );
        s.append(self.content.as_str());
        s.append(
            r#"
                </main>
                "#,
        );
        s.append(footer.as_str());
        s.append(
            r#"
            </body>
            </html>
            "#,
        );
        s
    }
}

/// Assemble and render a page around `content`: the title and the theme
/// store come from the caller, the menu follows the session's
/// authentication state.
pub fn render_layout(
    content: &str,
    website_title: &str,
    is_authenticated: bool,
    theme_manager: ThemeManager,
) -> (r: String)
    ensures
        r@ == spec_layout_html(
            website_title@,
            content@,
            is_authenticated,
            spec_active_css(theme_manager),
        ),
{
    Layout::new(
        String::from_str(website_title),
        String::from_str(content),
        is_authenticated,
        theme_manager,
    ).render()
}

} // verus!
