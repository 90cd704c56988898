//! The fixed names of the shared static assets, one canonical location
//! each. They are part of the site contract: the packaging collaborator
//! writes files of exactly these names beside the site root, and every
//! page references them only through module-relative paths.

use vstd::prelude::*;

verus! {

/// The favicon.
pub fn favicon_asset() -> (r: &'static str)
    ensures
        r@ == "assets/sway-logo.svg"@,
{
    "assets/sway-logo.svg"
}

/// The stylesheet that normalizes browser defaults.
pub fn normalize_asset() -> (r: &'static str)
    ensures
        r@ == "assets/normalize.css"@,
{
    "assets/normalize.css"
}

/// The site's main theme stylesheet.
pub fn theme_asset() -> (r: &'static str)
    ensures
        r@ == "assets/swaydoc.css"@,
{
    "assets/swaydoc.css"
}

/// The syntax-highlighting theme stylesheet.
pub fn syntax_theme_asset() -> (r: &'static str)
    ensures
        r@ == "assets/ayu.css"@,
{
    "assets/ayu.css"
}

/// The minified syntax-highlighting theme stylesheet.
pub fn syntax_theme_min_asset() -> (r: &'static str)
    ensures
        r@ == "assets/ayu.min.css"@,
{
    "assets/ayu.min.css"
}

/// The syntax-highlighter script.
pub fn highlighter_asset() -> (r: &'static str)
    ensures
        r@ == "assets/highlight.js"@,
{
    "assets/highlight.js"
}

} // verus!
