//! Notes, their identifiers and their creation times.
//!
//! A note's identifier is a UUID, kept as its 128-bit value (the big-endian
//! reading of its 16 bytes, which is how the `uuid` crate converts it). Its
//! creation time is a `time::OffsetDateTime`, carried as it is.
use vstd::prelude::*;

use crate::text::{is_blank, is_blank_str, owned};

verus! {

#[verifier::external_type_specification]
#[verifier::external_body]
pub struct ExUuid(uuid::Uuid);

#[verifier::external_type_specification]
#[verifier::external_body]
pub struct ExUuidError(uuid::Error);

#[verifier::external_type_specification]
#[verifier::external_body]
pub struct ExOffsetDateTime(time::OffsetDateTime);

#[verifier::external_type_specification]
#[verifier::external_body]
pub struct ExFormatError(time::error::Format);

#[verifier::external_type_specification]
#[verifier::external_body]
pub struct ExParseError(time::error::Parse);

// ---------------------------------------------------------------------------
// UUIDs
// ---------------------------------------------------------------------------

/// The version field of a UUID: the high nibble of its seventh byte
/// (`Uuid::get_version_num`).
pub open spec fn uuid_version(id: u128) -> u128 {
    (id >> 76u128) & 0xFu128
}

/// Whether `Uuid::get_version` gives `Version::SortRand`, that is, the
/// version field is 7.
pub open spec fn is_uuid_v7(id: u128) -> bool {
    uuid_version(id) == 7
}

/// Reads the version field.
pub fn uuid_version_of(id: u128) -> (r: u128)
    ensures
        r == uuid_version(id),
{
    (id >> 76u128) & 0xFu128
}

/// A lower-case hexadecimal digit.
pub open spec fn hex_digit(d: u128) -> char {
    if d < 10 {
        (('0' as u128) + d) as char
    } else {
        (('a' as u128) + d - 10) as char
    }
}

/// The position, among the 32 hexadecimal digits, of the character at `i`
/// of the hyphenated form.
pub open spec fn uuid_digit_index(i: int) -> int {
    if i < 8 {
        i
    } else if i < 13 {
        i - 1
    } else if i < 18 {
        i - 2
    } else if i < 23 {
        i - 3
    } else {
        i - 4
    }
}

/// The `d`-th hexadecimal digit of a UUID, most significant first.
pub open spec fn uuid_nibble(id: u128, d: int) -> u128 {
    (id >> ((124 - 4 * d) as u128)) & 0xFu128
}

/// The hyphenated lower-case form of a UUID (`8-4-4-4-12` hexadecimal
/// digits), which is what `Uuid`'s `Display` writes.
pub open spec fn uuid_text(id: u128) -> Seq<char> {
    Seq::new(
        36,
        |i: int|
            if i == 8 || i == 13 || i == 18 || i == 23 {
                '-'
            } else {
                hex_digit(uuid_nibble(id, uuid_digit_index(i)))
            },
    )
}

/// What `Uuid::parse_str` gives for a text: the UUID's value, or `None` where
/// it fails. The crate accepts the hyphenated, simple, braced and URN forms,
/// in either case.
pub uninterp spec fn parsed_uuid(text: Seq<char>) -> Option<u128>;

/// `Uuid::now_v7`: a fresh version-7 UUID, built from the current time and
/// random bits. Of the result only its version field is promised.
#[verifier::external_body]
pub(crate) fn new_v7_value() -> (r: u128)
    ensures
        is_uuid_v7(r),
{
    uuid::Uuid::now_v7().as_u128()
}

/// What `Uuid::from_u128` gives for a value: the UUID whose 16 bytes are the
/// value's big-endian bytes.
pub uninterp spec fn uuid_with_value(value: u128) -> uuid::Uuid;

/// `Uuid::from_u128`: the UUID with the given value, as `uuid_with_value`
/// names it.
#[verifier::external_body]
pub(crate) fn uuid_from_value(value: u128) -> (r: uuid::Uuid)
    ensures
        r == uuid_with_value(value),
{
    uuid::Uuid::from_u128(value)
}

/// `Uuid::as_u128`: the value of a UUID, the big-endian reading of its 16
/// bytes, from which `Uuid::from_u128` rebuilds the same UUID.
#[verifier::external_body]
pub(crate) fn uuid_value(id: &uuid::Uuid) -> (r: u128)
    ensures
        uuid_with_value(r) == *id,
{
    id.as_u128()
}

/// `Uuid`'s `Display` (through `to_string`): the hyphenated lower-case form;
/// `Uuid::parse_str` reads that form back to the same value.
#[verifier::external_body]
pub(crate) fn uuid_to_text(value: u128) -> (r: String)
    ensures
        r@ == uuid_text(value),
        parsed_uuid(r@) == Some(value),
{
    uuid::Uuid::from_u128(value).to_string()
}

/// `Uuid::parse_str`, with the parsed UUID given as its value.
#[verifier::external_body]
pub(crate) fn parse_uuid(text: &str) -> (r: Result<u128, uuid::Error>)
    ensures
        match r {
            Ok(value) => parsed_uuid(text@) == Some(value),
            Err(_) => parsed_uuid(text@) is None,
        },
{
    match uuid::Uuid::parse_str(text) {
        Ok(id) => Ok(id.as_u128()),
        Err(error) => Err(error),
    }
}

/// `uuid::Error`'s `Display`. Its text is not stated.
#[verifier::external_body]
pub(crate) fn describe_uuid_error(error: &uuid::Error) -> String {
    error.to_string()
}

// ---------------------------------------------------------------------------
// Times
// ---------------------------------------------------------------------------

/// What `OffsetDateTime::parse` with the RFC 3339 format gives for a text:
/// the time it reads, or `None` where it refuses the text.
pub uninterp spec fn rfc3339_parsed(text: Seq<char>) -> Option<time::OffsetDateTime>;

/// Whether `OffsetDateTime::parse` with the RFC 3339 format accepts a text.
pub open spec fn rfc3339_valid(text: Seq<char>) -> bool {
    rfc3339_parsed(text) is Some
}

/// What `OffsetDateTime::format` with the RFC 3339 format gives for a time:
/// its text, or `None` where it refuses the time (a year outside 0 to 9999,
/// or an offset with seconds).
pub uninterp spec fn rfc3339_text(value: time::OffsetDateTime) -> Option<Seq<char>>;

/// `OffsetDateTime::now_utc`: the current time. Nothing is stated of it.
#[verifier::external_body]
pub(crate) fn current_date_time() -> time::OffsetDateTime {
    time::OffsetDateTime::now_utc()
}

/// `OffsetDateTime::format` with the RFC 3339 format, as `rfc3339_text`
/// names it. What it writes, `OffsetDateTime::parse` with the same format
/// reads back to the same date, time and offset: it writes the four-digit
/// year, the month, day, hour, minute and second, the nonzero nanoseconds,
/// and `Z` or the offset's sign, hours and minutes, and it refuses offsets
/// that have seconds.
#[verifier::external_body]
pub(crate) fn format_rfc3339(value: time::OffsetDateTime) -> (r: Result<String, time::error::Format>)
    ensures
        match r {
            Ok(text) => rfc3339_text(value) == Some(text@),
            Err(_) => rfc3339_text(value) is None,
        },
        r matches Ok(text) ==> rfc3339_parsed(text@) == Some(value),
{
    value.format(&time::format_description::well_known::Rfc3339)
}

/// `time::error::Format`'s `Display`. Its text is not stated.
#[verifier::external_body]
pub(crate) fn describe_format_error(error: &time::error::Format) -> String {
    error.to_string()
}

/// `OffsetDateTime::parse` with the RFC 3339 format, as `rfc3339_parsed`
/// names it.
#[verifier::external_body]
pub(crate) fn parse_rfc3339(text: &str) -> (r: Result<time::OffsetDateTime, time::error::Parse>)
    ensures
        match r {
            Ok(value) => rfc3339_parsed(text@) == Some(value),
            Err(_) => rfc3339_parsed(text@) is None,
        },
{
    time::OffsetDateTime::parse(text, &time::format_description::well_known::Rfc3339)
}

/// `time::error::Parse`'s `Display`. Its text is not stated.
#[verifier::external_body]
pub(crate) fn describe_parse_error(error: &time::error::Parse) -> String {
    error.to_string()
}

// ---------------------------------------------------------------------------
// Notes
// ---------------------------------------------------------------------------

/// The abstract value of a note.
pub struct NoteView {
    pub id: u128,
    pub text: Seq<char>,
    pub created_at: time::OffsetDateTime,
}

/// A single note: never blank.
#[derive(Debug, PartialEq, Eq)]
pub struct Note {
    id: u128,
    text: String,
    created_at: time::OffsetDateTime,
}

impl Clone for Note {
    fn clone(&self) -> (r: Self)
        ensures
            r@ == self@,
    {
        self.duplicate()
    }
}

impl View for Note {
    type V = NoteView;

    closed spec fn view(&self) -> NoteView {
        NoteView { id: self.id, text: self.text@, created_at: self.created_at }
    }
}

impl Note {
    #[verifier::type_invariant]
    spec fn well_formed(self) -> bool {
        !is_blank(self.text@)
    }

    /// A new note with a fresh version-7 identifier; `None` where the text
    /// is blank. The text is kept as given, surrounding white space included.
    pub fn new(text: String, created_at: time::OffsetDateTime) -> (r: Option<Self>)
        ensures
            r is None == is_blank(text@),
            r matches Some(note) ==> {
                &&& note@.text == text@
                &&& note@.created_at == created_at
                &&& is_uuid_v7(note@.id)
            },
    {
        if is_blank_str(text.as_str()) {
            return None;
        }
        Some(Note { id: new_v7_value(), text, created_at })
    }

    /// A note rebuilt from stored parts; `None` where the text is blank.
    pub fn restore(id: u128, text: String, created_at: time::OffsetDateTime) -> (r: Option<Self>)
        ensures
            r is None == is_blank(text@),
            r matches Some(note) ==> note@ == (NoteView { id, text: text@, created_at }),
    {
        if is_blank_str(text.as_str()) {
            return None;
        }
        Some(Note { id, text, created_at })
    }

    /// A note rebuilt from a UUID, a text and a time, keeping all three;
    /// `None` where the text is blank.
    pub fn from_parts(
        id: uuid::Uuid,
        text: String,
        created_at: time::OffsetDateTime,
    ) -> (r: Option<Self>)
        ensures
            r is None == is_blank(text@),
            r matches Some(note) ==> note@.text == text@ && note@.created_at == created_at
                && uuid_with_value(note@.id) == id,
    {
        Self::restore(uuid_value(&id), text, created_at)
    }

    /// The identifier's value.
    pub fn id_value(&self) -> (r: u128)
        ensures
            r == self@.id,
    {
        self.id
    }

    /// The identifier, as a `uuid::Uuid`: the UUID with the identifier's value.
    pub fn id(&self) -> (r: uuid::Uuid)
        ensures
            r == uuid_with_value(self@.id),
    {
        uuid_from_value(self.id)
    }

    /// The note's text, which never is blank.
    pub fn text(&self) -> (r: &str)
        ensures
            r@ == self@.text,
            !is_blank(r@),
    {
        proof {
            use_type_invariant(self);
        }
        self.text.as_str()
    }

    /// When the note was created.
    pub fn created_at(&self) -> (r: time::OffsetDateTime)
        ensures
            r == self@.created_at,
    {
        self.created_at
    }

    /// A copy of the note.
    pub fn duplicate(&self) -> (r: Self)
        ensures
            r@ == self@,
    {
        proof {
            use_type_invariant(self);
        }
        Note { id: self.id, text: self.text.clone(), created_at: self.created_at }
    }
}

} // verus!
