//! What the pages show: which template a visitor gets and what the templates
//! are handed.

use vstd::prelude::*;
use crate::accounts::signed_out_text;
use crate::text::same_text;

verus! {

/// Whether a details text is the signed-out one.
pub fn is_signed_out(details: &str) -> (b: bool)
    ensures
        b == (details@ == signed_out_text()),
{
    same_text(details, "x|x|x|x|x|x")
}

/// The template of the front page: the sign-in page for a visitor who is
/// not signed in, the index page otherwise.
pub fn index_template(details: &str) -> (name: &'static str)
    ensures
        name@ == (if details@ == signed_out_text() { "signin"@ } else { "index"@ }),
{
    if is_signed_out(details) {
        "signin"
    } else {
        "index"
    }
}

/// The script a page that needs a signed-in visitor carries: one that sends
/// a visitor who is not signed in back to the front page.
pub fn redirect_script(details: &str) -> (script: Option<String>)
    ensures
        details@ == signed_out_text() ==> (script matches Some(t) && t@ == "<script>window.location.href='/'</script>"@),
        details@ != signed_out_text() ==> script is None,
{
    if is_signed_out(details) {
        Some(String::from_str("<script>window.location.href='/'</script>"))
    } else {
        None
    }
}

} // verus!
