//! Universally unique identifiers, held as 128-bit numbers.

use crate::text;
use vstd::arithmetic::power::pow;
use vstd::prelude::*;

verus! {

/// The lower-case hexadecimal digit for `d`.
pub open spec fn hex_digit(d: int) -> char {
    if d < 10 {
        (0x30 + d) as char
    } else {
        (0x61 + d - 10) as char
    }
}

/// The hexadecimal digit at place `k` of the thirty-two that write `id`, the highest first.
pub open spec fn hex_place(id: u128, k: int) -> char {
    hex_digit(id as int / pow(16, (31 - k) as nat) % 16)
}

/// The canonical text of `id`: lower-case hexadecimal digits in groups of 8, 4, 4, 4 and 12,
/// with hyphens between the groups.
pub open spec fn hyphenated(id: u128) -> Seq<char> {
    Seq::new(
        36,
        |i: int|
            if i == 8 || i == 13 || i == 18 || i == 23 {
                '-'
            } else if i < 8 {
                hex_place(id, i)
            } else if i < 13 {
                hex_place(id, i - 1)
            } else if i < 18 {
                hex_place(id, i - 2)
            } else if i < 23 {
                hex_place(id, i - 3)
            } else {
                hex_place(id, i - 4)
            },
    )
}

/// What `uuid::Uuid::parse_str` reads in a text: the value, or nothing where it refuses it.
pub uninterp spec fn uuid_read(text: Seq<char>) -> Option<u128>;

/// `uuid::Uuid::parse_str`. It reads the canonical text of a value as that value; what other
/// forms it reads is left to its name.
#[verifier::external_body]
fn parse_uuid(text: &str) -> (r: Option<u128>)
    ensures
        r == uuid_read(text@),
        forall|id: u128| text@ == #[trigger] hyphenated(id) ==> r == Some(id),
{
    uuid::Uuid::parse_str(text).ok().map(|parsed| parsed.as_u128())
}

/// `uuid::Uuid::from_u128` and its `to_string`: the canonical text.
#[verifier::external_body]
pub(crate) fn uuid_text(id: u128) -> (r: String)
    ensures
        r@ == hyphenated(id),
{
    uuid::Uuid::from_u128(id).to_string()
}

/// Why a text is not taken as an identifier.
#[derive(Clone, Copy, PartialEq, Eq, Structural, Debug)]
pub enum IdentifierFault {
    /// It writes no identifier.
    NotUuid,
    /// It writes one, but not in canonical form.
    NotCanonical,
}

impl IdentifierFault {
    /// What is wrong with the text that `label` names.
    pub open spec fn text(self, label: Seq<char>) -> Seq<char> {
        match self {
            IdentifierFault::NotUuid => label + " is not a UUID"@,
            IdentifierFault::NotCanonical => label
                + " must use canonical lowercase hyphenated text"@,
        }
    }

    /// What is wrong with the text that `label` names.
    pub fn message(&self, label: &str) -> (r: String)
        ensures
            r@ == self.text(label@),
    {
        match self {
            IdentifierFault::NotUuid => text::cat(label, " is not a UUID"),
            IdentifierFault::NotCanonical => text::cat(
                label,
                " must use canonical lowercase hyphenated text",
            ),
        }
    }
}

/// What a text is worth as an identifier, given what was read in it.
pub open spec fn canonical(read: Option<u128>, value: Seq<char>) -> Result<u128, IdentifierFault> {
    match read {
        None => Err(IdentifierFault::NotUuid),
        Some(id) => if hyphenated(id) == value {
            Ok(id)
        } else {
            Err(IdentifierFault::NotCanonical)
        },
    }
}

/// What a text is worth as an identifier, given what was read in it.
pub fn canonical_of(read: Option<u128>, value: &str) -> (r: Result<u128, IdentifierFault>)
    ensures
        r == canonical(read, value@),
{
    match read {
        None => Err(IdentifierFault::NotUuid),
        Some(id) => if text::same(uuid_text(id).as_str(), value) {
            Ok(id)
        } else {
            Err(IdentifierFault::NotCanonical)
        },
    }
}

/// The identifier that `value` writes in canonical form.
pub fn canonical_uuid(value: &str) -> (r: Result<u128, IdentifierFault>)
    ensures
        r == canonical(uuid_read(value@), value@),
        forall|id: u128| r == Ok::<u128, IdentifierFault>(id) <==> value@ == #[trigger] hyphenated(id),
{
    let read = parse_uuid(value);
    canonical_of(read, value)
}

/// An identifier is canonical exactly where it is written as it would be written out: in small
/// letters, with hyphens.
pub proof fn which_identifiers_are_canonical(read: Option<u128>, value: Seq<char>)
    ensures
        read is None ==> canonical(read, value) == Err::<u128, IdentifierFault>(
            IdentifierFault::NotUuid,
        ),
        read matches Some(id) ==> {
            &&& canonical(read, value) is Ok <==> value == hyphenated(id)
            &&& canonical(read, value) matches Ok(kept) ==> kept == id
            &&& canonical(read, value) is Err ==> canonical(read, value) == Err::<
                u128,
                IdentifierFault,
            >(IdentifierFault::NotCanonical)
        },
        hyphenated(read->0).len() == 36,
        forall|i: int|
            0 <= i < 36 && #[trigger] hyphenated(read->0)[i] == '-' ==> i == 8 || i == 13 || i
                == 18 || i == 23,
        hyphenated(read->0)[8] == '-' && hyphenated(read->0)[13] == '-' && hyphenated(read->0)[18]
            == '-' && hyphenated(read->0)[23] == '-',
{
    let id = read->0;
    assert forall|i: int| 0 <= i < 36 && #[trigger] hyphenated(id)[i] == '-' implies i == 8 || i
        == 13 || i == 18 || i == 23 by {
        if !(i == 8 || i == 13 || i == 18 || i == 23) {
            let k = if i < 8 {
                i
            } else if i < 13 {
                i - 1
            } else if i < 18 {
                i - 2
            } else if i < 23 {
                i - 3
            } else {
                i - 4
            };
            assert(hyphenated(id)[i] == hex_place(id, k));
            let d = id as int / pow(16, (31 - k) as nat) % 16;
            assert(0 <= d < 16);
        }
    }
}

} // verus!
