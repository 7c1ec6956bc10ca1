//! The values that the service stores and hands out.

use vstd::prelude::*;

verus! {

/// What a paste holds: plain text, or a link to redirect to.
#[derive(Clone, Copy, Debug, PartialEq, Eq, Structural)]
pub enum PasteType {
    Text,
    Url,
}

/// The number under which a paste type is stored.
pub open spec fn paste_type_code(t: PasteType) -> u8 {
    match t {
        PasteType::Text => 0,
        PasteType::Url => 1,
    }
}

/// The paste type stored under `code`, where there is one.
pub open spec fn paste_type_of_code(code: u8) -> Option<PasteType> {
    if code == 0 {
        Some(PasteType::Text)
    } else if code == 1 {
        Some(PasteType::Url)
    } else {
        None
    }
}

impl PasteType {
    /// Reads a stored type code. Only `0` (text) and `1` (link) are codes.
    pub fn from(code: u8) -> (t: PasteType)
        requires
            code <= 1,
        ensures
            paste_type_of_code(code) == Some(t),
    {
        if code == 0 {
            PasteType::Text
        } else {
            PasteType::Url
        }
    }

    /// The code under which this type is stored.
    pub fn as_u8(&self) -> (code: u8)
        ensures
            code == paste_type_code(*self),
    {
        match self {
            PasteType::Text => 0,
            PasteType::Url => 1,
        }
    }
}

/// Storing a type and reading it back gives the same type.
pub proof fn lemma_code_round_trip(t: PasteType)
    ensures
        paste_type_of_code(paste_type_code(t)) == Some(t),
{
}

/// A code that names a type is the code of that type.
pub proof fn lemma_code_unique(code: u8)
    requires
        code <= 1,
    ensures
        paste_type_of_code(code) matches Some(t) && paste_type_code(t) == code,
{
}

/// A paste as it is handed to a reader.
pub struct Paste {
    pub id: String,
    pub content: String,
    pub paste_type: PasteType,
}

} // verus!
