//! The not-found page.

use vstd::prelude::*;
use vstd::string::StringExecFns;

verus! {

/// The not-found page's markup.
pub open spec fn spec_fourofour_content() -> Seq<char> {
    r#"
        <section class="error-page">
            <h1>404 - Page Not Found</h1>
            <div class="error-content">
                <div class="helpful-links">
                    <ul>
                        <li><a href="/">Return to Homepage</a></li>
                    </ul>
                </div>
            </div>
        </section>
    "#@
}

pub fn fourofour_content() -> (r: String)
    ensures
        r@ == spec_fourofour_content(),
{
    String::from_str(
        r#"
        <section class="error-page">
            <h1>404 - Page Not Found</h1>
            <div class="error-content">
                <div class="helpful-links">
                    <ul>
                        <li><a href="/">Return to Homepage</a></li>
                    </ul>
                </div>
            </div>
        </section>
    "#,
    )
}

} // verus!
