//! What the server answers: creating a paste and looking one up.
//!
//! Both talk to the store between their decisions, so each is written here
//! as the decisions alone: the application performs the store operation that
//! a step asks for and hands back what came of it.

use vstd::prelude::*;
use rand::distr::SampleString;
use crate::datatypes::{Paste, PasteType, paste_type_code, paste_type_of_code, lemma_code_round_trip};
use crate::text::{is_link, check_link};
use crate::form::form_of;

verus! {

/// How many identifiers are tried before creation gives up.
pub const MAX_ATTEMPTS: u32 = 100;

/// How many characters an identifier has.
pub const ID_LEN: usize = 8;

/// An error that the server hands back to the browser.
pub enum ApiError {
    /// A link was asked for and the content is not one.
    InvalidUrl,
    /// No free identifier was found.
    NoSpace,
    /// The store failed; the text is what it said.
    Database(String),
}

/// The text of an error, as the browser shows it.
pub open spec fn api_message(e: ApiError) -> Seq<char> {
    match e {
        ApiError::InvalidUrl => "Invalid url"@,
        ApiError::NoSpace => "No space left on device"@,
        ApiError::Database(d) => "Databese error: "@ + d@,
    }
}

impl ApiError {
    /// The text of the error.
    pub fn message(&self) -> (m: String)
        ensures
            m@ == api_message(*self),
    {
        match self {
            ApiError::InvalidUrl => String::from_str("Invalid url"),
            ApiError::NoSpace => String::from_str("No space left on device"),
            ApiError::Database(d) => {
                let mut m = String::from_str("Databese error: ");
                m.append(d.as_str());
                m
            },
        }
    }
}

pub open spec fn is_alphanumeric(c: char) -> bool {
    ('0' <= c && c <= '9') || ('a' <= c && c <= 'z') || ('A' <= c && c <= 'Z')
}

/// An identifier: eight ASCII letters and digits.
pub open spec fn is_paste_id(s: Seq<char>) -> bool {
    &&& s.len() == ID_LEN
    &&& forall|i: int| 0 <= i < s.len() ==> is_alphanumeric(#[trigger] s[i])
}

/// `len` characters drawn at random from `A-Z`, `a-z` and `0-9`, from
/// `rand::distr::Alphanumeric::sample_string` with the thread's generator
/// `rand::rng()`.
///
/// Claimed: the string has `len` characters and each is an ASCII letter or
/// digit. Which ones come out is chance.
#[verifier::external_body]
fn sample_alphanumeric(len: usize) -> (s: String)
    ensures
        s@.len() == len,
        forall|i: int| 0 <= i < len ==> is_alphanumeric(#[trigger] s@[i]),
{
    rand::distr::Alphanumeric.sample_string(&mut rand::rng(), len)
}

/// A row of the store.
pub struct StoredPaste {
    pub id: String,
    pub content: String,
    /// `-1` never, `0` read once, else the moment it runs out.
    pub expiry: i32,
    /// The type code (see [`PasteType::from`]).
    pub paste_type: u8,
}

/// What the store holds in every row that creation writes: a well-formed
/// identifier and a type code that names a type.
pub open spec fn valid_row(row: StoredPaste) -> bool {
    is_paste_id(row.id@) && row.paste_type <= 1
}

/// What creation asks for next.
pub enum CreateStep {
    /// Store this row, and report whether it was stored (it is not where
    /// its identifier is taken).
    Insert(StoredPaste),
    /// Answer the browser: the identifier of the new paste, or an error.
    Finish(Result<String, ApiError>),
}

/// The creation of one paste: what is to be stored, how many identifiers
/// have been tried, and the one that waits for the store's answer.
pub struct Creation {
    attempts: u32,
    pending: Option<String>,
    content: String,
    paste_type: PasteType,
    expiry: i32,
}

impl Creation {
    /// How many identifiers have been tried.
    pub closed spec fn attempts(self) -> nat {
        self.attempts as nat
    }

    /// The identifier whose insertion is outstanding, if any.
    pub closed spec fn pending(self) -> Option<Seq<char>> {
        match self.pending {
            Some(s) => Some(s@),
            None => None,
        }
    }

    /// The content of the paste being created.
    pub closed spec fn content(self) -> Seq<char> {
        self.content@
    }

    /// Its type.
    pub closed spec fn paste_type(self) -> PasteType {
        self.paste_type
    }

    /// Its stored expiry.
    pub closed spec fn expiry(self) -> i32 {
        self.expiry
    }

    /// Whether `row` stores the paste being created, under some identifier.
    pub open spec fn row_for(self, row: StoredPaste) -> bool {
        &&& row.content@ == self.content()
        &&& row.paste_type == paste_type_code(self.paste_type())
        &&& row.expiry == self.expiry()
    }

    /// No more than [`MAX_ATTEMPTS`] tries, and an outstanding identifier
    /// is a well-formed one that has been counted.
    pub open spec fn wf(self) -> bool {
        &&& self.attempts() <= MAX_ATTEMPTS
        &&& self.pending() matches Some(id) ==> is_paste_id(id) && self.attempts() >= 1
    }

    /// Draws a fresh identifier, counts the try and offers the row.
    fn try_next(&mut self) -> (step: CreateStep)
        requires
            old(self).attempts() < MAX_ATTEMPTS,
        ensures
            step matches CreateStep::Insert(row) && valid_row(row) && final(self).row_for(row)
                && final(self).pending() == Some(row.id@),
            final(self).attempts() == old(self).attempts() + 1,
            final(self).content() == old(self).content(),
            final(self).paste_type() == old(self).paste_type(),
            final(self).expiry() == old(self).expiry(),
    {
        let id = sample_alphanumeric(ID_LEN);
        self.attempts = self.attempts + 1;
        self.pending = Some(id.clone());
        let row = StoredPaste {
            id,
            content: self.content.clone(),
            expiry: self.expiry,
            paste_type: self.paste_type.as_u8(),
        };
        CreateStep::Insert(row)
    }

    /// Begins creating a paste of `content` as `paste_type` that expires as
    /// `expiry` says. A link must start with `http://` or `https://`;
    /// otherwise the first identifier is drawn and its row offered to the
    /// store.
    pub fn start(content: &str, paste_type: PasteType, expiry: i32) -> (r: (Creation, CreateStep))
        ensures
            r.0.wf(),
            r.0.content() == content@,
            r.0.paste_type() == paste_type,
            r.0.expiry() == expiry,
            paste_type == PasteType::Url && !is_link(content@) ==> (r.1 matches CreateStep::Finish(
                Err(ApiError::InvalidUrl),
            ) && r.0.pending() is None && r.0.attempts() == 0),
            !(paste_type == PasteType::Url && !is_link(content@)) ==> (r.1 matches CreateStep::Insert(
                row,
            ) && valid_row(row) && r.0.row_for(row) && r.0.pending() == Some(row.id@)
                && r.0.attempts() == 1),
    {
        let mut c = Creation {
            attempts: 0,
            pending: None,
            content: String::from_str(content),
            paste_type,
            expiry,
        };
        if paste_type == PasteType::Url && !check_link(content) {
            return (c, CreateStep::Finish(Err(ApiError::InvalidUrl)));
        }
        let step = c.try_next();
        (c, step)
    }

    /// Takes the store's answer to the outstanding insertion: a stored
    /// paste is answered with its identifier; a refused one is tried again
    /// under a new identifier until [`MAX_ATTEMPTS`] have been tried, and then
    /// creation gives up.
    pub fn on_insert(&mut self, inserted: bool) -> (step: CreateStep)
        requires
            old(self).wf(),
            old(self).pending() is Some,
        ensures
            final(self).wf(),
            final(self).content() == old(self).content(),
            final(self).paste_type() == old(self).paste_type(),
            final(self).expiry() == old(self).expiry(),
            inserted ==> (step matches CreateStep::Finish(Ok(id)) && old(self).pending() == Some(id@)
                && final(self).pending() is None && final(self).attempts() == old(self).attempts()),
            !inserted && old(self).attempts() < MAX_ATTEMPTS ==> (step matches CreateStep::Insert(row)
                && valid_row(row) && final(self).row_for(row) && final(self).pending() == Some(row.id@)
                && final(self).attempts() == old(self).attempts() + 1),
            !inserted && old(self).attempts() >= MAX_ATTEMPTS ==> (step matches CreateStep::Finish(
                Err(ApiError::NoSpace),
            ) && final(self).pending() is None && final(self).attempts() == old(self).attempts()),
    {
        let pending = self.pending.take();
        if inserted {
            match pending {
                Some(id) => CreateStep::Finish(Ok(id)),
                None => CreateStep::Finish(Err(ApiError::NoSpace)),
            }
        } else if self.attempts < MAX_ATTEMPTS {
            self.try_next()
        } else {
            CreateStep::Finish(Err(ApiError::NoSpace))
        }
    }
}

/// The answer to a lookup, and the paste to delete because it has now
/// been read once.
pub struct Lookup {
    pub delete: Option<String>,
    pub paste: Result<Option<Paste>, ApiError>,
}

/// Whether `paste` is what the row `row` holds.
pub open spec fn paste_of_row(p: Paste, row: StoredPaste) -> bool {
    &&& p.id@ == row.id@
    &&& p.content@ == row.content@
    &&& paste_type_of_code(row.paste_type) == Some(p.paste_type)
}

/// The rows whose type code names a type.
pub open spec fn row_ok(fetched: Result<Option<StoredPaste>, String>) -> bool {
    fetched matches Ok(Some(row)) ==> row.paste_type <= 1
}

/// Answers a lookup from what the store found: its error, nothing, or a
/// row. A row whose expiry is `0` (read once) is handed out and deleted.
pub fn lookup(fetched: Result<Option<StoredPaste>, String>) -> (r: Lookup)
    requires
        row_ok(fetched),
    ensures
        fetched matches Err(e) ==> (r.paste matches Err(ApiError::Database(m)) && m@ == e@ && r.delete is None),
        fetched matches Ok(None) ==> (r.paste matches Ok(None) && r.delete is None),
        fetched matches Ok(Some(row)) ==> {
            &&& (r.paste matches Ok(Some(p)) && paste_of_row(p, row))
            &&& r.delete is Some <==> row.expiry == 0
            &&& r.delete matches Some(id) ==> id@ == row.id@
        },
{
    match fetched {
        Err(e) => Lookup { delete: None, paste: Err(ApiError::Database(e)) },
        Ok(None) => Lookup { delete: None, paste: Ok(None) },
        Ok(Some(row)) => {
            let delete = if crate::expiry::is_read_once(row.expiry) {
                Some(row.id.clone())
            } else {
                None
            };
            let paste = Paste {
                id: row.id,
                content: row.content,
                paste_type: PasteType::from(row.paste_type),
            };
            Lookup { delete, paste: Ok(Some(paste)) }
        },
    }
}

/// The plain answer of the `/raw/{id}` address.
pub enum RawReply {
    /// The response body.
    Body(String),
    /// Send the browser on to this address.
    Redirect(String),
}

/// Answers `/raw/{id}` from what the store found: the error text, "404,
/// not found", the text of a text paste, or a redirect to a link. A row
/// that is read once is deleted, as in [`lookup`].
pub fn raw_reply(fetched: Result<Option<StoredPaste>, String>) -> (r: (Option<String>, RawReply))
    requires
        row_ok(fetched),
    ensures
        fetched matches Err(e) ==> (r.1 matches RawReply::Body(b) && b@ == "Databese error: "@ + e@ && r.0 is None),
        fetched matches Ok(None) ==> (r.1 matches RawReply::Body(b) && b@ == "404, not found"@ && r.0 is None),
        fetched matches Ok(Some(row)) ==> {
            &&& r.0 is Some <==> row.expiry == 0
            &&& r.0 matches Some(id) ==> id@ == row.id@
            &&& row.paste_type == 0 ==> (r.1 matches RawReply::Body(b) && b@ == row.content@)
            &&& row.paste_type == 1 ==> (r.1 matches RawReply::Redirect(to) && to@ == row.content@)
        },
{
    let found = lookup(fetched);
    let reply = match found.paste {
        Err(e) => RawReply::Body(e.message()),
        Ok(None) => RawReply::Body(String::from_str("404, not found")),
        Ok(Some(p)) => match p.paste_type {
            PasteType::Text => RawReply::Body(p.content),
            PasteType::Url => RawReply::Redirect(p.content),
        },
    };
    (found.delete, reply)
}

/// What the home page lets through, the server does not refuse as a bad
/// link: the two apply the same rule to a link paste.
pub proof fn lemma_form_passes_link_check(content: Seq<char>, sel: Seq<char>, expiry: Seq<char>)
    requires
        form_of(content, sel, expiry) is Ok,
    ensures
        form_of(content, sel, expiry) matches Ok((t, e)) && !(t == PasteType::Url && !is_link(content)),
{
}

/// What creation writes is read back: a row that creation offers to the
/// store is one that a lookup accepts, and the paste a lookup makes of it
/// has the identifier, content and type that were written.
pub proof fn lemma_written_row_reads_back(c: Creation, row: StoredPaste, p: Paste)
    requires
        c.row_for(row),
        paste_of_row(p, row),
    ensures
        row_ok(Ok(Some(row))),
        p.id@ == row.id@,
        p.content@ == c.content(),
        p.paste_type == c.paste_type(),
{
    lemma_code_round_trip(c.paste_type());
}

} // verus!
