//! Unique record identifiers: 128-bit UUIDs, generated at random and written
//! in the hyphenated lower-case form.

use vstd::arithmetic::power::pow;
use vstd::prelude::*;

verus! {

#[verifier::external_type_specification]
#[verifier::external_body]
pub struct ExUuidError(uuid::Error);

/// What `uuid::Uuid::parse_str` reads from a text: the 128-bit value, if the
/// text is a UUID in one of the forms that the `uuid` crate accepts.
pub uninterp spec fn uuid_parsed(s: Seq<char>) -> Option<u128>;

/// Relies on `uuid::Uuid::parse_str`: it accepts a text exactly when it names a
/// UUID, and returns its value.
#[verifier::external_body]
fn parse_uuid(s: &str) -> (r: Result<u128, uuid::Error>)
    ensures
        r is Ok <==> uuid_parsed(s@) is Some,
        r matches Ok(v) ==> uuid_parsed(s@) == Some(v),
{
    uuid::Uuid::parse_str(s).map(|u| u.as_u128())
}

/// Relies on `uuid::Uuid::new_v4`: a random value whose version field is 4
/// and whose variant field is the one of RFC 4122.
#[verifier::external_body]
fn random_uuid() -> (r: u128)
    ensures
        is_random_uuid(r),
{
    uuid::Uuid::new_v4().as_u128()
}

/// Relies on the `Display` of `uuid::fmt::Hyphenated`: 32 lower-case
/// hexadecimal digits in groups of 8, 4, 4, 4 and 12, joined by `-`.
#[verifier::external_body]
fn hyphenated_uuid(v: u128) -> (r: String)
    ensures
        r@ == hyphenated_text(v),
{
    uuid::Uuid::from_u128(v).hyphenated().to_string()
}

/// Version 4 in bits 76 to 79, and the bits 62 and 63 set to `10`.
pub open spec fn is_random_uuid(v: u128) -> bool {
    &&& v & 0xF000_0000_0000_0000_0000 == 0x4000_0000_0000_0000_0000
    &&& v & 0xC000_0000_0000_0000 == 0x8000_0000_0000_0000
}

pub open spec fn hex_lower(d: int) -> char {
    if d < 10 {
        (('0' as int) + d) as char
    } else {
        (('a' as int) + (d - 10)) as char
    }
}

/// The `k`-th hexadecimal digit of `v`, counted from the most significant.
pub open spec fn nibble(v: u128, k: int) -> int {
    (v as int / pow(16, (31 - k) as nat)) % 16
}

/// Digits `from` up to `to` of `v`, in lower-case hexadecimal.
pub open spec fn hex_run(v: u128, from: int, to: int) -> Seq<char> {
    Seq::new((to - from) as nat, |i: int| hex_lower(nibble(v, from + i)))
}

/// The hyphenated form of a UUID, such as `67e55044-10b1-426f-9247-bb680e5fe0c8`.
pub open spec fn hyphenated_text(v: u128) -> Seq<char> {
    hex_run(v, 0, 8) + seq!['-'] + hex_run(v, 8, 12) + seq!['-'] + hex_run(v, 12, 16)
        + seq!['-'] + hex_run(v, 16, 20) + seq!['-'] + hex_run(v, 20, 32)
}

/// The text given to [`Uuid::parse_str`] is not a UUID.
#[derive(Debug, Clone, Copy, PartialEq, Eq, Structural)]
pub struct ParseError;

/// A 128-bit unique identifier.
#[derive(Debug, Clone, Copy, PartialEq, Eq, Structural, Hash)]
pub struct Uuid {
    value: u128,
}

impl View for Uuid {
    type V = u128;

    closed spec fn view(&self) -> u128 {
        self.value
    }
}

impl Uuid {
    pub fn from_u128(value: u128) -> (r: Uuid)
        ensures
            r@ == value,
    {
        Uuid { value }
    }

    pub fn as_u128(&self) -> (r: u128)
        ensures
            r == self@,
    {
        self.value
    }

    /// Reads a UUID from its text.
    pub fn parse_str(input: &str) -> (r: Result<Uuid, ParseError>)
        ensures
            r is Ok <==> uuid_parsed(input@) is Some,
            r matches Ok(u) ==> uuid_parsed(input@) == Some(u@),
    {
        match parse_uuid(input) {
            Ok(value) => Ok(Uuid { value }),
            Err(_) => Err(ParseError),
        }
    }

    /// A fresh random identifier.
    pub fn new_v4() -> (r: Uuid)
        ensures
            is_random_uuid(r@),
    {
        Uuid { value: random_uuid() }
    }

    /// The hyphenated lower-case text of the identifier.
    pub fn hyphenated(&self) -> (r: String)
        ensures
            r@ == hyphenated_text(self@),
    {
        hyphenated_uuid(self.value)
    }
}

} // verus!
