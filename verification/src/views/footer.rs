//! The fixed footer block.

use vstd::prelude::*;
use vstd::string::StringExecFns;

verus! {

/// The footer's markup.
pub open spec fn spec_footer_html() -> Seq<char> {
    r#"
        <footer>
            <p class="footer-ad"><a href="https://github.com/KrzysztofMarciniak/MRS-Funding-Software">Proudly using MRS Funding Software.</a></p>
        </footer>
        </body>
        "#@
}

pub struct Footer {}

impl Footer {
    pub fn render() -> (r: String)
        ensures
            r@ == spec_footer_html(),
    {
        String::from_str(
            r#"
        <footer>
            <p class="footer-ad"><a href="https://github.com/KrzysztofMarciniak/MRS-Funding-Software">Proudly using MRS Funding Software.</a></p>
        </footer>
        </body>
        "#,
        )
    }
}

} // verus!
