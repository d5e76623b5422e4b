//! The ids of sessions.

use vstd::arithmetic::power::pow;
use vstd::prelude::*;

verus! {

/// The character of a hexadecimal digit.
pub open spec fn hex_char(d: int) -> char {
    if d < 10 {
        (d + 48) as char
    } else {
        (d + 87) as char
    }
}

/// The `k`-th of the 32 hexadecimal digits of an id, from the left.
pub open spec fn id_digit(id: u128, k: int) -> int {
    (id as int / pow(16, (31 - k) as nat)) % 16
}

/// An id as it is written: 32 hexadecimal digits in lower case, in groups of
/// eight, four, four, four and twelve with a hyphen between each two.
pub open spec fn id_text(id: u128) -> Seq<char> {
    Seq::new(
        36,
        |i: int|
            if i == 8 || i == 13 || i == 18 || i == 23 {
                '-'
            } else if i < 8 {
                hex_char(id_digit(id, i))
            } else if i < 13 {
                hex_char(id_digit(id, i - 1))
            } else if i < 18 {
                hex_char(id_digit(id, i - 2))
            } else if i < 23 {
                hex_char(id_digit(id, i - 3))
            } else {
                hex_char(id_digit(id, i - 4))
            },
    )
}

/// The text that `uuid::Uuid` displays: the digits of the id in five groups.
#[verifier::external_body]
pub(crate) fn format_id(id: u128) -> (r: String)
    ensures
        r@ == id_text(id),
{
    uuid::Uuid::from_u128(id).to_string()
}

} // verus!
