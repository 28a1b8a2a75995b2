//! Identifiers of to-do records: 128-bit values, drawn at random when a
//! record is created and parsed from their canonical text at the boundary.
use vstd::prelude::*;

verus! {

/// What `uuid::Uuid::parse_str` yields for a text, as the UUID's 128-bit
/// value, or nothing when the text is not a well-formed UUID.
pub uninterp spec fn uuid_parsed(s: Seq<char>) -> Option<u128>;

/// A 128-bit value laid out as a random (version 4, RFC 4122 variant) UUID:
/// the version nibble is 4 and the two variant bits are `10`.
pub open spec fn is_v4_layout(v: u128) -> bool {
    &&& (v >> 76u128) & 0xfu128 == 4u128
    &&& (v >> 62u128) & 0x3u128 == 2u128
}

/// Relies on `uuid::Uuid::new_v4`: a random UUID whose version and variant
/// bits are fixed, read back as its 128-bit value with `Uuid::as_u128`.
/// Beyond those bits nothing is promised of the value.
#[verifier::external_body]
fn random_uuid() -> (r: u128)
    ensures
        is_v4_layout(r),
{
    uuid::Uuid::new_v4().as_u128()
}

/// Relies on `uuid::Uuid::parse_str`: the parsed UUID as its 128-bit value
/// (`Uuid::as_u128`), or `None` where the parser reports an error.
#[verifier::external_body]
fn parse_uuid(s: &str) -> (r: Option<u128>)
    ensures
        r == uuid_parsed(s@),
{
    match uuid::Uuid::parse_str(s) {
        Ok(u) => Some(u.as_u128()),
        Err(_) => None,
    }
}

/// Error of parsing an identifier from text.
#[derive(Debug, Clone, Copy, PartialEq, Eq, Structural)]
pub enum IdError {
    /// The text is not a well-formed identifier.
    Invalid,
}

impl IdError {
    /// The HTTP status code that reports this error: 400, a bad request.
    pub fn status_code(&self) -> (r: u16)
        ensures
            r == 400,
    {
        400
    }
}

/// Identifier of a to-do record. Equality and hashing are by value.
#[derive(Debug, Clone, Copy, PartialEq, Eq, Hash, Structural)]
pub struct TodoId(pub u128);

impl View for TodoId {
    type V = u128;

    open spec fn view(&self) -> u128 {
        self.0
    }
}

impl TodoId {
    /// A fresh identifier, drawn at random.
    pub fn new() -> (r: TodoId)
        ensures
            is_v4_layout(r@),
    {
        TodoId(random_uuid())
    }

    /// What parsing the text `s` gives.
    pub open spec fn parse_spec(s: Seq<char>) -> Result<TodoId, IdError> {
        match uuid_parsed(s) {
            Some(v) => Ok(TodoId(v)),
            None => Err(IdError::Invalid),
        }
    }

    /// Parses an identifier from its text; malformed text gives
    /// `IdError::Invalid`.
    pub fn parse(s: &str) -> (r: Result<TodoId, IdError>)
        ensures
            r == Self::parse_spec(s@),
    {
        match parse_uuid(s) {
            Some(v) => Ok(TodoId(v)),
            None => Err(IdError::Invalid),
        }
    }
}

impl Default for TodoId {
    /// A fresh identifier, drawn at random.
    fn default() -> (r: TodoId)
        ensures
            is_v4_layout(r@),
    {
        TodoId::new()
    }
}

impl core::str::FromStr for TodoId {
    type Err = IdError;

    fn from_str(s: &str) -> (r: Result<TodoId, IdError>)
        ensures
            r == TodoId::parse_spec(s@),
    {
        TodoId::parse(s)
    }
}

} // verus!
