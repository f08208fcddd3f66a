//! The page header: title and navigation, with the menu depending on
//! whether the visitor is signed in.

use vstd::prelude::*;
use vstd::string::StringExecFns;

verus! {

/// The menu for a signed-in visitor.
pub open spec fn spec_menu_authenticated() -> Seq<char> {
    r#"
                <li><a href="/">Home</a></li>
                <li><a href="/about">About</a></li>
                <li><a href="/contact">Contact</a></li>
                <li><a href="/protected/dashboard">Dashboard</a></li>
                <li><a href="/logout">Logout</a></li>
            "#@
}

/// The menu for a guest.
pub open spec fn spec_menu_guest() -> Seq<char> {
    r#"
                <li><a href="/">Home</a></li>
                <li><a href="/about">About</a></li>
                <li><a href="/contact">Contact</a></li>
                <li><a href="/login">Login</a></li>
            "#@
}

/// The header's markup with the title and the fitting menu interpolated.
pub open spec fn spec_header_html(title: Seq<char>, is_authenticated: bool) -> Seq<char> {
    r#"
            <header>
                <h1>"#@ + title + r#"</h1>
                <nav>
                    <ul>
                        "#@ + (if is_authenticated {
        spec_menu_authenticated()
    } else {
        spec_menu_guest()
    }) + r#"
                    </ul>
                </nav>
            </header>
            "#@
}

pub struct Header {
    pub title: String,
    pub is_authenticated: bool,
}

impl Header {
    pub fn new(title: String, is_authenticated: bool) -> (r: Header)
        ensures
            r.title == title,
            r.is_authenticated == is_authenticated,
    {
        Header { title, is_authenticated }
    }

    pub fn render(&self) -> (r: String)
        ensures
            r@ == spec_header_html(self.title@, self.is_authenticated),
    {
        let menu_items: &str = if self.is_authenticated {
            r#"
                <li><a href="/">Home</a></li>
                <li><a href="/about">About</a></li>
                <li><a href="/contact">Contact</a></li>
                <li><a href="/protected/dashboard">Dashboard</a></li>
                <li><a href="/logout">Logout</a></li>
            "#
        } else {
            r#"
                <li><a href="/">Home</a></li>
                <li><a href="/about">About</a></li>
                <li><a href="/contact">Contact</a></li>
                <li><a href="/login">Login</a></li>
            "#
        };
        let mut s = String::from_str(
            r#"
            <header>
                <h1>"#,
        );
        s.append(self.title.as_str());
        s.append(
            r#"</h1>
                <nav>
                    <ul>
                        "#,
        );
        s.append(menu_items);
        s.append(
            r#"
                    </ul>
                </nav>
            </header>
            "#,
        );
        s
    }
}

} // verus!
