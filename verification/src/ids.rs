//! Identity ids. An id is the 128-bit value of a UUID; it is drawn, written
//! and read by the `uuid` crate.

use vstd::prelude::*;

verus! {

/// A hyphen stands at the places 8, 13, 18 and 23 of a UUID's text.
pub open spec fn is_hyphen_place(i: int) -> bool {
    i == 8 || i == 13 || i == 18 || i == 23
}

/// How many hexadecimal digits stand before the place `i` of a UUID's text.
pub open spec fn digits_before(i: int) -> int {
    if i < 8 {
        i
    } else if i < 13 {
        i - 1
    } else if i < 18 {
        i - 2
    } else if i < 23 {
        i - 3
    } else {
        i - 4
    }
}

/// The `k`-th of the 32 hexadecimal digits of `id`, the most significant
/// being the first, as a value below sixteen.
pub open spec fn hex_value(id: u128, k: int) -> u128 {
    (id >> ((4 * (31 - k)) as u128)) & 0xf
}

/// The hyphenated text of the UUID with the 128-bit value `id`: its 32
/// hexadecimal digits in lower case, in groups of 8, 4, 4, 4 and 12.
pub open spec fn hyphenated_text(id: u128) -> Seq<char> {
    Seq::new(
        36,
        |i: int|
            if is_hyphen_place(i) {
                '-'
            } else {
                "0123456789abcdef"@[hex_value(id, digits_before(i)) as int]
            },
    )
}

/// The 128-bit value of the UUID that `uuid` reads from `text`, in any of the
/// forms it accepts, or `None` where it reads none.
pub uninterp spec fn uuid_parsed(text: Seq<char>) -> Option<u128>;

/// `uuid::Uuid::new_v4`, as a 128-bit value. The id is random: nothing is
/// claimed of it. `uuid` panics where the operating system hands out no
/// random bytes.
#[verifier::external_body]
pub(crate) fn fresh_user_id() -> u128 {
    uuid::Uuid::new_v4().as_u128()
}

/// `uuid::fmt::Hyphenated`'s text of the UUID made by
/// `uuid::Uuid::from_u128`: the contract states the format that `uuid`
/// documents for it, and that `uuid::Uuid::parse_str` reads this text back
/// as the same UUID, the hyphenated form being one of those it accepts.
#[verifier::external_body]
pub(crate) fn uuid_to_text(id: u128) -> (text: String)
    ensures
        text@ == hyphenated_text(id),
        uuid_parsed(text@) == Some(id),
{
    uuid::Uuid::from_u128(id).hyphenated().to_string()
}

/// `uuid::Uuid::parse_str`, with the UUID taken as a 128-bit value by
/// `as_u128`. The contract only names what was read.
#[verifier::external_body]
pub(crate) fn parse_uuid(text: &str) -> (id: Option<u128>)
    ensures
        id == uuid_parsed(text@),
{
    uuid::Uuid::parse_str(text).ok().map(|uuid| uuid.as_u128())
}

} // verus!
