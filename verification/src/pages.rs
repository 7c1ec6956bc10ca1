//! What the pages show and where they send the browser.

use vstd::prelude::*;
use crate::datatypes::{Paste, PasteType};

verus! {

/// What the paste page does with the answer of a lookup.
pub enum PageView {
    /// Show the content; a link is followed when the content is clicked.
    Show { content: String, is_link: bool },
    /// Go to this address instead.
    Navigate(String),
}

/// The home page, showing `message` as an error.
pub open spec fn error_address(message: Seq<char>) -> Seq<char> {
    "/?e="@ + message
}

/// Decides the paste page from the lookup's answer (or the text of its
/// error): a found paste is shown, flagged as a link where it is one; a
/// missing one sends the browser home with "Paste not found"; an error sends
/// it home with the error's text.
pub fn paste_page_view(answer: Result<Option<Paste>, String>) -> (v: PageView)
    ensures
        answer matches Ok(Some(p)) ==> (v matches PageView::Show { content, is_link } && content@
            == p.content@ && is_link == (p.paste_type == PasteType::Url)),
        answer matches Ok(None) ==> (v matches PageView::Navigate(to) && to@ == "/?e=Paste%20not%20found"@),
        answer matches Err(e) ==> (v matches PageView::Navigate(to) && to@ == error_address(e@)),
{
    match answer {
        Ok(Some(p)) => PageView::Show { content: p.content, is_link: p.paste_type == PasteType::Url },
        Ok(None) => PageView::Navigate(String::from_str("/?e=Paste%20not%20found")),
        Err(e) => {
            let mut to = String::from_str("/?e=");
            to.append(e.as_str());
            PageView::Navigate(to)
        },
    }
}

/// The address of the page of the paste `id`.
pub fn paste_address(id: &str) -> (a: String)
    ensures
        a@ == "/paste/"@ + id@,
{
    let mut a = String::from_str("/paste/");
    a.append(id);
    a
}

/// The address of the raw content of the paste `id`.
pub fn raw_address(id: &str) -> (a: String)
    ensures
        a@ == "/raw/"@ + id@,
{
    let mut a = String::from_str("/raw/");
    a.append(id);
    a
}

/// The caption of the link to the raw content: a link paste is opened
/// directly.
pub fn raw_caption(is_link: bool) -> (c: String)
    ensures
        is_link ==> c@ == "Direkt Link"@,
        !is_link ==> c@ == "Raw"@,
{
    if is_link {
        String::from_str("Direkt Link")
    } else {
        String::from_str("Raw")
    }
}

/// The name under which a paste type is offered on the home page.
pub fn type_caption(t: PasteType) -> (c: String)
    ensures
        t == PasteType::Text ==> c@ == "Text"@,
        t == PasteType::Url ==> c@ == "Url"@,
{
    match t {
        PasteType::Text => String::from_str("Text"),
        PasteType::Url => String::from_str("Url"),
    }
}

/// The error popup is out while there is an error to show.
pub fn popup_shown(error: &str) -> (b: bool)
    ensures
        b == (error@.len() > 0),
{
    !error.is_empty()
}

} // verus!
