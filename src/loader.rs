//! The loader state that the upstream embeds in its server-rendered pages.

use vstd::prelude::*;
use crate::error::ClientError;

verus! {

broadcast use vstd::string::group_string_axioms;

/// The identifier of the element whose text is the page's loader state.
pub const LOADER_STATE_ID: &'static str = "__COHOST_LOADER_STATE__";

/// The text of the first element of `html` that `selector` matches, as the
/// HTML parser reads the document; `None` when nothing matches or the
/// selector does not parse.
pub uninterp spec fn first_match_text(html: Seq<char>, selector: Seq<char>) -> Option<Seq<char>>;

/// Relies on scraper: `Html::parse_document` reads the page, `Selector::parse`
/// reads the selector, `Html::select` yields the matching elements in
/// document order, and `ElementRef::text` yields the text nodes under the
/// first one, joined here. The outcome depends on the two strings alone.
#[verifier::external_body]
fn select_first_text(html: &str, selector: &str) -> (r: Option<String>)
    ensures
        match first_match_text(html@, selector@) {
            Some(t) => r matches Some(s) && s@ == t,
            None => r is None,
        },
{
    let document = scraper::Html::parse_document(html);
    let selector = scraper::Selector::parse(selector).ok()?;
    let element = document.select(&selector).next()?;
    Some(element.text().collect::<Vec<&str>>().join(""))
}

/// The selector of the element whose identifier is `id`.
pub open spec fn id_selector(id: Seq<char>) -> Seq<char> {
    "[id="@ + id + "]"@
}

/// The text of the page's loader state element, which the caller reads as
/// JSON; a page without that element is a `ClientError::NotFound`.
pub fn loader_state_text(html: &str) -> (r: Result<String, ClientError>)
    ensures
        match first_match_text(html@, id_selector(LOADER_STATE_ID@)) {
            Some(t) => r matches Ok(s) && s@ == t,
            None => r matches Err(ClientError::NotFound(_)),
        },
{
    let mut selector = String::from_str("[id=");
    selector.append(LOADER_STATE_ID);
    selector.append("]");
    match select_first_text(html, selector.as_str()) {
        Some(text) => Ok(text),
        None => {
            let mut message = String::from_str("no ");
            message.append(LOADER_STATE_ID);
            message.append(" element");
            Err(ClientError::NotFound(message))
        },
    }
}

} // verus!
