//! Identifier handling: validation of creature and battle identifiers, and
//! generation of fresh record identifiers.

use vstd::prelude::*;

verus! {

/// Whether a string is a textual form of a unique identifier that the
/// identifier parser accepts.
pub uninterp spec fn uuid_wellformed(s: Seq<char>) -> bool;

/// Relies on `uuid::Uuid::parse_str`: it returns `Ok` exactly on well-formed
/// UUID strings, and its outcome depends on the characters of the input
/// alone.
#[verifier::external_body]
pub(crate) fn is_wellformed_uuid(s: &str) -> (r: bool)
    ensures
        r == uuid_wellformed(s@),
{
    uuid::Uuid::parse_str(s).is_ok()
}

/// Relies on `uuid::Uuid::new_v4` and its `Display` impl: the hyphenated
/// textual form of a UUID is always 36 characters long.
#[verifier::external_body]
pub(crate) fn fresh_uuid_string() -> (r: String)
    ensures
        r@.len() == 36,
{
    uuid::Uuid::new_v4().to_string()
}

/// Whether an identifier received from a client is well-formed. A lookup or
/// deletion request whose identifier fails this check is rejected as "not
/// found" before any store access.
pub fn id_is_valid(id: &str) -> (r: bool)
    ensures
        r == uuid_wellformed(id@),
{
    is_wellformed_uuid(id)
}

} // verus!
