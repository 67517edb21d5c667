//! Record identifiers: 128-bit values, written as UUID text.
//!
//! Parsing and formatting are the `uuid` crate's; the library holds an
//! identifier as its `u128` value.

use uuid::Error as UuidError;
use vstd::prelude::*;

verus! {

/// `uuid::Error`, why a text is no identifier: carried as it comes, and
/// displayed.
#[verifier::external_type_specification]
#[verifier::external_body]
pub struct ExUuidError(UuidError);

/// The value that `uuid::Uuid::parse_str` reads from `text`, where it accepts it.
pub uninterp spec fn uuid_value(text: Seq<char>) -> Option<u128>;

/// The text that `uuid::Uuid` displays for `value`.
pub uninterp spec fn uuid_text(value: u128) -> Seq<char>;

/// The bits that say "version 4, RFC 4122 variant" in an identifier.
pub const RANDOM_IDENTIFIER_MASK: u128 = 0x0000_0000_0000_f000_c000_0000_0000_0000;

pub const RANDOM_IDENTIFIER_BITS: u128 = 0x0000_0000_0000_4000_8000_0000_0000_0000;

/// Whether `value` is marked as a randomly drawn identifier.
pub open spec fn is_random_identifier(value: u128) -> bool {
    value & RANDOM_IDENTIFIER_MASK == RANDOM_IDENTIFIER_BITS
}

/// Calls `uuid::Uuid::parse_str` and takes the value of the identifier it
/// reads. Trusted: the call succeeds exactly on the texts for which
/// `uuid_value` holds an identifier, and then returns that one.
#[verifier::external_body]
pub(crate) fn parse(text: &str) -> (r: Result<u128, UuidError>)
    ensures
        r is Ok <==> uuid_value(text@) is Some,
        r matches Ok(value) ==> uuid_value(text@) == Some(value),
{
    uuid::Uuid::parse_str(text).map(|id| id.as_u128())
}

/// Displays `uuid::Uuid::from_u128(value)`. Trusted: the text is the
/// hyphenated form that `uuid_text` names, and `uuid::Uuid::parse_str` reads
/// the same value back from it.
#[verifier::external_body]
pub(crate) fn hyphenated(value: u128) -> (text: String)
    ensures
        text@ == uuid_text(value),
        uuid_value(text@) == Some(value),
{
    uuid::Uuid::from_u128(value).to_string()
}

/// Calls `uuid::Uuid::new_v4`. Trusted: whatever the random source gave, the
/// version and variant bits are set as for a random identifier. The call
/// does not return where the system has no random bytes to give.
#[verifier::external_body]
pub(crate) fn fresh() -> (value: u128)
    ensures
        is_random_identifier(value),
{
    uuid::Uuid::new_v4().as_u128()
}

/// A random identifier is never the all-zero default.
pub proof fn lemma_random_identifier_is_not_nil(value: u128)
    requires
        is_random_identifier(value),
    ensures
        value != 0,
{
    assert(value & RANDOM_IDENTIFIER_MASK == RANDOM_IDENTIFIER_BITS ==> value != 0) by (bit_vector);
}

} // verus!
