//! Identifiers as the service exchanges them: a 128-bit value inside the
//! library, its hyphenated lower-case text on the wire.  Parsing and
//! formatting are done by the `uuid` crate.

use vstd::prelude::*;

verus! {

/// The lower-case hexadecimal digit of a value in `0..16`.
pub open spec fn hex_digit_lower(d: int) -> char {
    if d < 10 {
        (('0' as int) + d) as char
    } else {
        (('a' as int) + d - 10) as char
    }
}

/// The `k`-th hexadecimal digit of `id`, counting from the most
/// significant one (`k` in `0..32`).
pub open spec fn uuid_nibble(id: u128, k: int) -> int {
    ((id >> ((124 - 4 * k) as u128)) & 0xfu128) as int
}

/// Which digit of the 32-digit text stands at position `i` of the hyphenated
/// form (positions 8, 13, 18 and 23 hold hyphens).
pub open spec fn hyphenated_digit_index(i: int) -> int {
    if i < 8 {
        i
    } else if i < 13 {
        i - 1
    } else if i < 18 {
        i - 2
    } else if i < 23 {
        i - 3
    } else {
        i - 4
    }
}

/// Whether position `i` of the hyphenated form holds a hyphen.
pub open spec fn is_hyphen_position(i: int) -> bool {
    i == 8 || i == 13 || i == 18 || i == 23
}

/// The hyphenated lower-case text of an identifier, such as
/// `a1a2a3a4-b1b2-c1c2-d1d2-d3d4d5d6d7d8`: 36 characters, the 32 hexadecimal
/// digits of the value from the most significant one, in groups of 8, 4, 4,
/// 4 and 12 separated by hyphens.
pub open spec fn uuid_hyphenated(id: u128) -> Seq<char> {
    Seq::new(
        36,
        |i: int|
            if is_hyphen_position(i) {
                '-'
            } else {
                hex_digit_lower(uuid_nibble(id, hyphenated_digit_index(i)))
            },
    )
}

/// Names the identifier that `uuid::Uuid::parse_str` reads from a text, as
/// its 128-bit big-endian value, or `None` where the text is refused.
pub uninterp spec fn uuid_parse_str(text: Seq<char>) -> Option<u128>;

/// Calls `uuid::Uuid::parse_str` and gives the parsed identifier as its
/// 128-bit value (`Uuid::as_u128`).  Trusted: the result is what the crate
/// computes for the text (named `uuid_parse_str`), and the hyphenated
/// lower-case text of any identifier is read back as that identifier (the
/// crate's parser accepts 36-character input with hyphens at positions 8,
/// 13, 18 and 23 and hexadecimal digits of either case elsewhere).
#[verifier::external_body]
pub(crate) fn parse_uuid(text: &str) -> (parsed: Option<u128>)
    ensures
        parsed == uuid_parse_str(text@),
        forall|id: u128| text@ == #[trigger] uuid_hyphenated(id) ==> parsed == Some(id),
{
    match uuid::Uuid::parse_str(text) {
        Ok(id) => Some(id.as_u128()),
        Err(_) => None,
    }
}

/// Calls `uuid::Uuid::from_u128` and then `to_string` on the identifier.
/// Trusted: the crate's `Display` writes the hyphenated lower-case form of
/// the big-endian bytes, which is `uuid_hyphenated`.
#[verifier::external_body]
pub(crate) fn format_uuid(id: u128) -> (text: String)
    ensures
        text@ == uuid_hyphenated(id),
{
    uuid::Uuid::from_u128(id).to_string()
}

} // verus!

use crate::messages::Uuid;
use crate::status::{Code, Status, is_status};

verus! {

/// `result` is the error with the given code and message.
pub open spec fn is_error<T>(result: Result<T, Status>, code: Code, message: Seq<char>) -> bool {
    result matches Err(s) && is_status(s, code, message)
}

/// `field` holds the hyphenated text of `id`.
pub open spec fn names_id(field: Option<Uuid>, id: u128) -> bool {
    field matches Some(m) && m.value@ == uuid_hyphenated(id)
}

/// What reading an identifier from `text` gives: the parsed identifier, or
/// the `InvalidArgument` error with message `invalid` where the text is not
/// an identifier.
pub open spec fn id_read(text: Seq<char>, invalid: Seq<char>, result: Result<u128, Status>) -> bool {
    match uuid_parse_str(text) {
        Some(id) => result == Ok::<u128, Status>(id),
        None => is_error(result, Code::InvalidArgument, invalid),
    }
}

/// Turns what parsing an identifier's text gave into the identifier, or into
/// the `InvalidArgument` error with message `invalid`.
pub fn id_from_parsed(parsed: Option<u128>, invalid: &str) -> (result: Result<u128, Status>)
    ensures
        match parsed {
            Some(id) => result == Ok::<u128, Status>(id),
            None => is_error(result, Code::InvalidArgument, invalid@),
        },
{
    match parsed {
        Some(id) => Ok(id),
        None => Err(Status::invalid_argument(invalid)),
    }
}

/// Reads the identifier that `id` holds, or gives the `InvalidArgument`
/// error with message `invalid` where its text is not an identifier.  The
/// hyphenated text of an identifier always reads back as that identifier.
pub fn parse_id(id: &Uuid, invalid: &str) -> (result: Result<u128, Status>)
    ensures
        id_read(id.value@, invalid@, result),
        forall|n: u128| id.value@ == #[trigger] uuid_hyphenated(n) ==> result == Ok::<u128, Status>(n),
{
    let parsed = parse_uuid(id.value.as_str());
    id_from_parsed(parsed, invalid)
}

/// The wire form of an identifier.
pub fn id_message(id: u128) -> (m: Uuid)
    ensures
        m.value@ == uuid_hyphenated(id),
{
    Uuid { value: format_uuid(id) }
}

} // verus!

verus! {

/// What reading a required identifier field gives: the `InvalidArgument`
/// error `missing` where the field is absent, else what reading its text
/// gives, with the error "Invalid UUID format".
pub open spec fn required_id_read(field: Option<Uuid>, missing: Seq<char>, result: Result<u128, Status>) -> bool {
    match field {
        None => is_error(result, Code::InvalidArgument, missing),
        Some(m) => id_read(m.value@, "Invalid UUID format"@, result),
    }
}

/// The contract of reading a required identifier field: what
/// `required_id_read` says, and that the hyphenated text of an identifier
/// reads as that identifier.
pub open spec fn id_field_read(field: Option<Uuid>, missing: Seq<char>, result: Result<u128, Status>) -> bool {
    &&& required_id_read(field, missing, result)
    &&& forall|n: u128| #[trigger] names_id(field, n) ==> result == Ok::<u128, Status>(n)
}

/// Reads a required identifier field: the `InvalidArgument` error `missing`
/// where it is absent, the error "Invalid UUID format" where its text is not
/// an identifier, else the identifier.
pub fn require_id(field: &Option<Uuid>, missing: &str) -> (result: Result<u128, Status>)
    ensures
        id_field_read(*field, missing@, result),
{
    match field {
        None => Err(Status::invalid_argument(missing)),
        Some(m) => parse_id(m, "Invalid UUID format"),
    }
}

} // verus!
