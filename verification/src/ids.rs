//! Subscription identifiers as text, through the `uuid` crate.

use vstd::prelude::*;
use vstd::arithmetic::power2::pow2;
use crate::json::hex_lower;

verus! {

/// The `i`-th hexadecimal digit (`0 <= i < 32`, most significant first)
/// of a 128-bit identifier.
pub open spec fn id_hex_digit(id: u128, i: int) -> char {
    hex_lower(((id as int) / (pow2((4 * (31 - i)) as nat) as int)) % 16)
}

/// How many hyphens precede position `k` of the hyphenated form.
pub open spec fn hyphens_before(k: int) -> int {
    if k < 8 {
        0
    } else if k < 13 {
        1
    } else if k < 18 {
        2
    } else if k < 23 {
        3
    } else {
        4
    }
}

/// The hyphenated lowercase form of an identifier, such as
/// `67e55044-10b1-426f-9247-bb680e5fe0c8`: its 32 hex digits, most
/// significant first, with hyphens at positions 8, 13, 18 and 23.
pub open spec fn uuid_hyphenated(id: u128) -> Seq<char> {
    Seq::new(
        36,
        |k: int|
            if k == 8 || k == 13 || k == 18 || k == 23 {
                '-'
            } else {
                id_hex_digit(id, k - hyphens_before(k))
            },
    )
}

/// What `uuid::Uuid::parse_str` makes of a text, as the identifier's
/// 128-bit value (`Uuid::as_u128`), or `None` where it refuses the text.
pub uninterp spec fn uuid_parse(s: Seq<char>) -> Option<u128>;

/// Calls `Uuid::to_string` (the `Display` of `uuid::Uuid`) on the
/// identifier whose 128-bit value is `id`. Its contract claims the
/// hyphenated lowercase form that `uuid`'s `format_hyphenated` writes.
#[verifier::external_body]
pub(crate) fn format_id(id: u128) -> (r: String)
    ensures
        r@ == uuid_hyphenated(id),
{
    uuid::Uuid::from_u128(id).to_string()
}

/// Calls `uuid::Uuid::parse_str` and gives back the parsed identifier's
/// 128-bit value. Its contract claims that the result is `uuid_parse` of
/// the text, and that the hyphenated form of an identifier parses back to
/// that identifier (`parse_hyphenated` reads exactly what
/// `format_hyphenated` writes). Which other texts are accepted (simple,
/// braced, URN forms, uppercase digits) is left to the name.
#[verifier::external_body]
pub(crate) fn parse_id(s: &str) -> (r: Option<u128>)
    ensures
        r == uuid_parse(s@),
        forall|id: u128| #[trigger] uuid_hyphenated(id) == s@ ==> r == Some(id),
{
    match uuid::Uuid::parse_str(s) {
        Ok(u) => Some(u.as_u128()),
        Err(_) => None,
    }
}

} // verus!
