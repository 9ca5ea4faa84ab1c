//! Participant identities.
//!
//! An identity is a `uuid::Uuid`. The relay never looks inside one: it is
//! carried from an inbound message to the events published in its name. A
//! client makes its identity once, keeps it as text, and reads it back.

use vstd::prelude::*;
use vstd::string::StrSliceExecFns;
use crate::text::{chars_of, trim, trim_range};

verus! {

/// `uuid::Uuid`, declared so that it can stand in fields and signatures.
/// Nothing is assumed about its contents.
#[verifier::external_type_specification]
#[verifier::external_body]
pub struct ExUuid(uuid::Uuid);

/// What `uuid::Uuid::parse_str` makes of a text: the identity it denotes, or
/// `None` where the text is not one of the accepted spellings.
pub uninterp spec fn uuid_of_text(text: Seq<char>) -> Option<uuid::Uuid>;

/// Calls `uuid::Uuid::parse_str`. The parser is a pure function of the text,
/// so its outcome is named by `uuid_of_text`; a parse error becomes `None`.
#[verifier::external_body]
fn parse_uuid(text: &str) -> (parsed: Option<uuid::Uuid>)
    ensures
        parsed == uuid_of_text(text@),
{
    uuid::Uuid::parse_str(text).ok()
}

/// Calls `uuid::Uuid::new_v4`, which draws a random identity. Nothing is
/// claimed about the result.
#[verifier::external_body]
pub(crate) fn random_uuid() -> uuid::Uuid {
    uuid::Uuid::new_v4()
}

/// Reads an identity from the text it was kept as: the text without the
/// white space around it, parsed. `None` where that is no identity.
pub fn stored_uuid(content: &str) -> (stored: Option<uuid::Uuid>)
    ensures
        stored == uuid_of_text(trim(content@)),
{
    let chars = chars_of(content);
    assert(chars@.subrange(0, chars.len() as int) =~= chars@);
    let (from, to) = trim_range(&chars, 0, chars.len());
    parse_uuid(content.substring_char(from, to))
}

/// The identity of a client at startup, and whether it is yet to be stored:
/// the stored one where there is one, else the fresh one.
pub fn choose_uuid(stored: Option<uuid::Uuid>, fresh: uuid::Uuid) -> (chosen: (uuid::Uuid, bool))
    ensures
        chosen == match stored {
            Some(id) => (id, false),
            None => (fresh, true),
        },
{
    match stored {
        Some(id) => (id, false),
        None => (fresh, true),
    }
}

/// The identity of a client at startup, and whether it is yet to be
/// stored. `content` is the text that an earlier start kept, where there is
/// one. An identity that reads back is kept; otherwise a new one is drawn at
/// random.
pub fn load_or_create_uuid(content: Option<&str>) -> (chosen: (uuid::Uuid, bool))
    ensures
        match content {
            Some(text) => match uuid_of_text(trim(text@)) {
                Some(id) => chosen == (id, false),
                None => chosen.1,
            },
            None => chosen.1,
        },
{
    let stored = match content {
        Some(text) => stored_uuid(text),
        None => None,
    };
    match stored {
        Some(id) => choose_uuid(Some(id), id),
        None => choose_uuid(None, random_uuid()),
    }
}

} // verus!

