//! Identities of sources, jobs and documents.
//!
//! An identity is the 128-bit value of a UUID. The `uuid` crate makes new ones,
//! writes them as text and reads them back.

use vstd::prelude::*;
use vstd::arithmetic::power::pow;

verus! {

/// The bits that say of a UUID that it is a random one of the usual variant.
pub const RANDOM_FORM_MASK: u128 = 0x0000_0000_0000_f000_c000_0000_0000_0000;

/// What those bits hold in a random UUID: version 4, variant 1.
pub const RANDOM_FORM_BITS: u128 = 0x0000_0000_0000_4000_8000_0000_0000_0000;

/// Whether `id` has the form of a random UUID.
pub open spec fn random_form(id: u128) -> bool {
    id & RANDOM_FORM_MASK == RANDOM_FORM_BITS
}

/// Whether `id` has the form of a random UUID.
pub fn random_form_of(id: u128) -> (r: bool)
    ensures
        r == random_form(id),
{
    id & RANDOM_FORM_MASK == RANDOM_FORM_BITS
}

/// The hexadecimal digit for `n`, which is under sixteen, in lower case.
pub open spec fn hex_digit(n: int) -> char {
    "0123456789abcdef"@[n]
}

/// The `h`-th of the 32 hexadecimal digits of `id`, the most significant being the first.
pub open spec fn digit_of(id: u128, h: int) -> int {
    (id as int / pow(16, (31 - h) as nat)) % 16
}

/// Whether the `k`-th of the 36 characters of an identity's text is a hyphen.
pub open spec fn hyphen_at(k: int) -> bool {
    k == 8 || k == 13 || k == 18 || k == 23
}

/// How many of the characters before the `k`-th are digits.
pub open spec fn digits_before(k: int) -> int {
    if k < 8 {
        k
    } else if k < 13 {
        k - 1
    } else if k < 18 {
        k - 2
    } else if k < 23 {
        k - 3
    } else {
        k - 4
    }
}

/// The text of an identity: its 32 hexadecimal digits in lower case, the most significant
/// first, in groups of 8, 4, 4, 4 and 12 with a hyphen between two groups.
pub open spec fn hyphenated(id: u128) -> Seq<char> {
    Seq::new(
        36,
        |k: int|
            if hyphen_at(k) {
                '-'
            } else {
                hex_digit(digit_of(id, digits_before(k)))
            },
    )
}

/// The identity that `uuid` reads from a text, if it reads one.
pub uninterp spec fn parsed_id(text: Seq<char>) -> Option<u128>;

/// `Uuid::new_v4`, as a number. Which identity comes back is a matter of chance;
/// the contract states only that it has the form of a random UUID, which `new_v4`
/// gives to every value it makes.
#[verifier::external_body]
pub(crate) fn random_id() -> (id: u128)
    ensures
        random_form(id),
{
    uuid::Uuid::new_v4().as_u128()
}

/// The `Display` of `Uuid`, for the UUID whose bytes are those of `id`, the most
/// significant first: the hyphenated form in lower case.
#[verifier::external_body]
pub(crate) fn id_text(id: u128) -> (r: String)
    ensures
        r@ == hyphenated(id),
{
    uuid::Uuid::from_u128(id).to_string()
}

/// `Uuid::parse_str`, giving the value of the UUID that was read and nothing where the
/// text is no UUID. The contract only names the result.
#[verifier::external_body]
pub(crate) fn parse_id(text: &str) -> (r: Option<u128>)
    ensures
        r == parsed_id(text@),
{
    uuid::Uuid::parse_str(text).ok().map(|u| u.as_u128())
}

} // verus!
