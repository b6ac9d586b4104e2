//! Account identifiers: 128-bit values, written as text in tokens.

use vstd::prelude::*;
use vstd::arithmetic::power::pow;
use crate::hex::hex_of_bytes;

verus! {

/// The sixteen bytes of `id`, the most significant first.
pub open spec fn id_bytes(id: u128) -> Seq<u8> {
    Seq::new(16, |k: int| (id as int / pow(256, (15 - k) as nat) % 256) as u8)
}

/// The text of the identifier `id`: its thirty-two lower-case hexadecimal
/// digits in groups of 8, 4, 4, 4 and 12, with hyphens between the groups.
pub open spec fn uuid_text(id: u128) -> Seq<char> {
    let digits = hex_of_bytes(id_bytes(id));
    digits.subrange(0, 8) + seq!['-'] + digits.subrange(8, 12) + seq!['-'] + digits.subrange(
        12,
        16,
    ) + seq!['-'] + digits.subrange(16, 20) + seq!['-'] + digits.subrange(20, 32)
}

/// `Uuid::from_u128` and then `to_string`: the identifier with the bytes of
/// `id` in big-endian order, in the hyphenated lower-case form.
#[verifier::external_body]
pub(crate) fn account_id_text(id: u128) -> (text: String)
    ensures
        text@ == uuid_text(id),
{
    uuid::Uuid::from_u128(id).to_string()
}

/// `Uuid::new_v4` and then `as_u128`: a random identifier, of which nothing
/// is promised.
#[verifier::external_body]
pub(crate) fn fresh_account_id() -> u128 {
    uuid::Uuid::new_v4().as_u128()
}

} // verus!
