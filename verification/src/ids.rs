//! Identifiers of workflows, steps, instances and tasks.
//!
//! An identifier is a UUID held as its 128-bit value (the big-endian reading
//! of its sixteen bytes); the `uuid` crate generates and prints them.
use vstd::prelude::*;

verus! {

/// The canonical text of a UUID: thirty-six lower-case characters, the hex
/// digits of the value in groups of 8-4-4-4-12 joined by hyphens.
pub uninterp spec fn uuid_text(id: u128) -> Seq<char>;

/// Mask of the version nibble and the two variant bits of a UUID value.
pub open spec fn version_variant_mask() -> u128 {
    0xF000_C000_0000_0000_0000u128
}

/// The version and variant bits of a random (version 4, RFC 9562) UUID.
pub open spec fn random_version_variant() -> u128 {
    0x4000_8000_0000_0000_0000u128
}

/// Draws a fresh random identifier with `uuid::Uuid::new_v4`.
///
/// Trusted: the crate masks a random value so that the version nibble reads 4
/// and the variant bits read `10`; that is all that is claimed of the result.
#[verifier::external_body]
pub fn new_id() -> (id: u128)
    ensures
        id & version_variant_mask() == random_version_variant(),
{
    uuid::Uuid::new_v4().as_u128()
}

/// The text of an identifier, as `Display` of `uuid::Uuid::from_u128(id)`
/// prints it.
///
/// Trusted: the result is `uuid_text(id)`, a function of `id` alone, and has
/// thirty-six characters (the hyphenated form); its characters are not stated.
#[verifier::external_body]
pub fn id_text(id: u128) -> (text: String)
    ensures
        text@ == uuid_text(id),
        text@.len() == 36,
{
    uuid::Uuid::from_u128(id).to_string()
}

} // verus!
