//! The form on the home page: content, paste type and expiry, checked in
//! that order before a paste is sent off.

use vstd::prelude::*;
use crate::datatypes::PasteType;
use crate::expiry::{Expiry, ExpiryError, expiry_of, parse_expiry, expiry_timestamp, now_timestamp, stamp_of, delta_limit, in_calendar, storable_moment};
use crate::text::{is_link, check_link};

verus! {

/// Why the form was not sent.
#[derive(Clone, Copy, Debug, PartialEq, Eq, Structural)]
pub enum FormError {
    /// Nothing was entered: "Don't waste my storage".
    EmptyContent,
    /// A link was asked for and the content is not one: "Invalid url".
    InvalidUrl,
    /// The type selector holds neither `0` nor `1`; nothing is said.
    UnknownPasteType,
    /// The expiry field could not be read (see [`ExpiryError`]).
    Expiry(ExpiryError),
    /// The expiry's moment cannot be stored: chrono cannot reach it, or it
    /// is beyond 32 bits.
    OutOfRange,
}

/// The text that the home page shows for an error, where it shows one.
/// An expiry that cannot be read, that overflows, or whose moment the
/// store cannot keep is "Invalid expiry". A selector value the page does
/// not know is passed over in silence, and an empty part of the expiry is a
/// fault that stops the page.
pub open spec fn form_message(e: FormError) -> Option<Seq<char>> {
    match e {
        FormError::EmptyContent => Some("Don't waste my storage"@),
        FormError::InvalidUrl => Some("Invalid url"@),
        FormError::Expiry(ExpiryError::Invalid) => Some("Invalid expiry"@),
        FormError::Expiry(ExpiryError::Overflow) => Some("Invalid expiry"@),
        FormError::OutOfRange => Some("Invalid expiry"@),
        _ => None,
    }
}

impl FormError {
    /// The text shown for this error, if any.
    pub fn message(&self) -> (m: Option<String>)
        ensures
            m matches Some(t) ==> form_message(*self) == Some(t@),
            m is None ==> form_message(*self) is None,
    {
        match self {
            FormError::EmptyContent => Some(String::from_str("Don't waste my storage")),
            FormError::InvalidUrl => Some(String::from_str("Invalid url")),
            FormError::Expiry(ExpiryError::Invalid) => Some(String::from_str("Invalid expiry")),
            FormError::Expiry(ExpiryError::Overflow) => Some(String::from_str("Invalid expiry")),
            FormError::OutOfRange => Some(String::from_str("Invalid expiry")),
            _ => None,
        }
    }
}

/// A paste that is ready to be created.
pub struct NewPaste {
    pub content: String,
    pub paste_type: PasteType,
    /// `-1` never, `0` read once, else the moment it runs out.
    pub expiry: i32,
}

/// The paste type that the selector value `sel` stands for: `0` text,
/// `1` link.
pub open spec fn selected_type(sel: Seq<char>) -> Option<PasteType> {
    if sel == seq!['0'] {
        Some(PasteType::Text)
    } else if sel == seq!['1'] {
        Some(PasteType::Url)
    } else {
        None
    }
}

/// What the form says, before the time is looked at: the checks run in
/// the order content, type, link, expiry, and the first that fails decides.
pub open spec fn form_of(content: Seq<char>, sel: Seq<char>, expiry: Seq<char>) -> Result<
    (PasteType, Expiry),
    FormError,
> {
    if content.len() == 0 {
        Err(FormError::EmptyContent)
    } else {
        match selected_type(sel) {
            None => Err(FormError::UnknownPasteType),
            Some(t) => if t == PasteType::Url && !is_link(content) {
                Err(FormError::InvalidUrl)
            } else {
                match expiry_of(expiry) {
                    Ok(e) => Ok((t, e)),
                    Err(e) => Err(FormError::Expiry(e)),
                }
            },
        }
    }
}

/// An accepted form carries the type that was selected, whatever the
/// content: `0` gives text (a link pasted as text stays text) and `1` gives
/// a link; a non-empty form with a known selector and a readable expiry is
/// accepted with that type and that expiry, unless a link was asked for and
/// the content is not one.
pub proof fn lemma_form_keeps_selected_type(content: Seq<char>, sel: Seq<char>, expiry: Seq<char>)
    ensures
        form_of(content, sel, expiry) matches Ok((t, e)) ==> (sel == seq!['0'] && t == PasteType::Text)
            || (sel == seq!['1'] && t == PasteType::Url),
        form_of(content, sel, expiry) matches Ok((t, e)) ==> content.len() > 0 && expiry_of(expiry)
            == Ok::<Expiry, ExpiryError>(e),
        content.len() > 0 && sel == seq!['0'] && expiry_of(expiry) is Ok ==> form_of(content, sel, expiry)
            == Ok::<(PasteType, Expiry), FormError>((PasteType::Text, expiry_of(expiry)->Ok_0)),
        content.len() > 0 && sel == seq!['1'] && is_link(content) && expiry_of(expiry) is Ok
            ==> form_of(content, sel, expiry) == Ok::<(PasteType, Expiry), FormError>(
            (PasteType::Url, expiry_of(expiry)->Ok_0),
        ),
{
    assert(seq!['0'] != seq!['1']) by {
        assert(seq!['0'][0] != seq!['1'][0]);
    }
}

/// Reads the type selector.
pub fn parse_selection(sel: &str) -> (r: Option<PasteType>)
    ensures
        r == selected_type(sel@),
{
    if sel.unicode_len() != 1 {
        assert(sel@ != seq!['0'] && sel@ != seq!['1']);
        return None;
    }
    let c = sel.get_char(0);
    if c == '0' {
        assert(sel@ =~= seq!['0']);
        Some(PasteType::Text)
    } else if c == '1' {
        assert(sel@ =~= seq!['1']);
        Some(PasteType::Url)
    } else {
        assert(sel@ != seq!['0'] && sel@ != seq!['1']);
        None
    }
}

/// Checks the form without looking at the time.
pub fn check_form(content: &str, sel: &str, expiry: &str) -> (r: Result<(PasteType, Expiry), FormError>)
    ensures
        r == form_of(content@, sel@, expiry@),
        r matches Ok((t, e)) ==> (sel@ == seq!['0'] && t == PasteType::Text) || (sel@ == seq!['1']
            && t == PasteType::Url),
        r matches Ok((t, e)) ==> content@.len() > 0 && (t == PasteType::Url ==> is_link(content@)),
{
    proof {
        lemma_form_keeps_selected_type(content@, sel@, expiry@);
    }
    if content.is_empty() {
        return Err(FormError::EmptyContent);
    }
    let t = match parse_selection(sel) {
        None => return Err(FormError::UnknownPasteType),
        Some(t) => t,
    };
    if t == PasteType::Url && !check_link(content) {
        return Err(FormError::InvalidUrl);
    }
    match parse_expiry(expiry) {
        Ok(e) => Ok((t, e)),
        Err(e) => Err(FormError::Expiry(e)),
    }
}

/// What the form gives at the moment `now`: the type and the stored expiry
/// of the new paste, or why there is none.
pub open spec fn new_paste_of(content: Seq<char>, sel: Seq<char>, expiry: Seq<char>, now: i64) -> Result<
    (PasteType, i32),
    FormError,
> {
    match form_of(content, sel, expiry) {
        Err(e) => Err(e),
        Ok((t, e)) => match stamp_of(e, now) {
            Some(ts) => Ok((t, ts)),
            None => Err(FormError::OutOfRange),
        },
    }
}

/// The paste that the form describes, with its expiry seen from `now`.
pub fn prepare_paste_at(content: &str, sel: &str, expiry: &str, now: i64) -> (r: Result<NewPaste, FormError>)
    ensures
        match r {
            Ok(p) => p.content@ == content@ && new_paste_of(content@, sel@, expiry@, now) == Ok::<
                (PasteType, i32),
                FormError,
            >((p.paste_type, p.expiry)),
            Err(e) => new_paste_of(content@, sel@, expiry@, now) == Err::<(PasteType, i32), FormError>(e),
        },
        form_of(content@, sel@, expiry@) matches Ok((t, Expiry::After(d))) ==> {
            &&& r is Ok <==> (-delta_limit() <= d <= delta_limit() && in_calendar(now as int)
                && storable_moment(now + d))
            &&& r matches Ok(p) ==> p.expiry == now + d
        },
{
    let (t, e) = match check_form(content, sel, expiry) {
        Ok(v) => v,
        Err(err) => return Err(err),
    };
    match expiry_timestamp(e, now) {
        Some(ts) => Ok(NewPaste { content: String::from_str(content), paste_type: t, expiry: ts }),
        None => Err(FormError::OutOfRange),
    }
}

/// The paste that the form describes, with its expiry seen from the time
/// of the call. Whatever the time was, the answer is what
/// [`prepare_paste_at`] gives at some moment; where the form fails, or asks
/// for "never" or "read once", the time plays no part.
pub fn prepare_paste(content: &str, sel: &str, expiry: &str) -> (r: Result<NewPaste, FormError>)
    ensures
        exists|now: i64| match r {
            Ok(p) => p.content@ == content@ && #[trigger] new_paste_of(content@, sel@, expiry@, now) == Ok::<
                (PasteType, i32),
                FormError,
            >((p.paste_type, p.expiry)),
            Err(e) => new_paste_of(content@, sel@, expiry@, now) == Err::<(PasteType, i32), FormError>(e),
        },
        form_of(content@, sel@, expiry@) matches Err(e) ==> r == Err::<NewPaste, FormError>(e),
        form_of(content@, sel@, expiry@) matches Ok((t, Expiry::Never)) ==> (r matches Ok(p) && p.paste_type == t && p.expiry == -1 && p.content@ == content@),
        form_of(content@, sel@, expiry@) matches Ok((t, Expiry::ReadOnce)) ==> (r matches Ok(p) && p.paste_type == t && p.expiry == 0 && p.content@ == content@),
        form_of(content@, sel@, expiry@) matches Ok((t, Expiry::After(d))) ==> (r matches Ok(p) ==> storable_moment(p.expiry as int) && in_calendar(p.expiry - d)),
{
    let now = now_timestamp();
    prepare_paste_at(content, sel, expiry, now)
}

} // verus!
