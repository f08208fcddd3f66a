//! The document head, with the page title and the active theme's CSS
//! inlined.

use vstd::prelude::*;
use vstd::string::StringExecFns;

verus! {

/// The head's markup with the title and the style sheet interpolated.
pub open spec fn spec_head_html(title: Seq<char>, theme_css: Seq<char>) -> Seq<char> {
    r#"
        <!DOCTYPE html>
        <html lang="en">
        <head>
            <meta charset="UTF-8">
            <meta name="viewport" content="width=device-width, initial-scale=1.0">
            <title>"#@ + title + r#"</title>
            <style>
                "#@ + theme_css + r#"
            </style>
        </head>
        <body>
        "#@
}

pub fn render_head(title: &str, theme_css: &str) -> (r: String)
    ensures
        r@ == spec_head_html(title@, theme_css@),
{
    let mut s = String::from_str(
        r#"
        <!DOCTYPE html>
        <html lang="en">
        <head>
            <meta charset="UTF-8">
            <meta name="viewport" content="width=device-width, initial-scale=1.0">
            <title>"#,
    );
    s.append(title);
    s.append(
        r#"</title>
            <style>
                "#,
    );
    s.append(theme_css);
    s.append(
        r#"
            </style>
        </head>
        <body>
        "#,
    );
    s
}

} // verus!
