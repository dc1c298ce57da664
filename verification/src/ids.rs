//! Identifiers. An identifier is the 128-bit value of a UUID; the `uuid`
//! crate draws new ones and renders them as text.
use vstd::prelude::*;
use vstd::arithmetic::power::pow;

verus! {

/// The lower-case hexadecimal digit for `d` (0 to 15).
pub open spec fn hex_lower(d: int) -> char {
    if d < 10 {
        (48 + d) as char
    } else {
        (87 + d) as char
    }
}

/// The upper-case hexadecimal digit for `d` (0 to 15).
pub open spec fn hex_upper(d: int) -> char {
    if d < 10 {
        (48 + d) as char
    } else {
        (55 + d) as char
    }
}

/// The `k`-th hexadecimal digit of `id`, counted from the most significant one (0 to 31).
pub open spec fn nibble(id: u128, k: int) -> int {
    ((id as int) / pow(16, (31 - k) as nat)) % 16
}

/// The index of the hexadecimal digit that stands at position `p` of the
/// hyphenated form (hyphens after the 8th, 12th, 16th and 20th digits).
pub open spec fn digit_at(p: int) -> int {
    if p < 8 {
        p
    } else if p < 13 {
        p - 1
    } else if p < 18 {
        p - 2
    } else if p < 23 {
        p - 3
    } else {
        p - 4
    }
}

/// The hyphenated lower-case form of a UUID, `xxxxxxxx-xxxx-xxxx-xxxx-xxxxxxxxxxxx`,
/// which is what `Uuid`'s `Display` writes.
pub open spec fn uuid_hyphenated(id: u128) -> Seq<char> {
    Seq::new(
        36,
        |p: int|
            if p == 8 || p == 13 || p == 18 || p == 23 {
                '-'
            } else {
                hex_lower(nibble(id, digit_at(p)))
            },
    )
}

/// The identifier is a random (version 4) UUID: its version field (the 13th
/// hexadecimal digit) is 4 and its variant field (the top two bits of the 17th)
/// is `10`, as `Uuid::new_v4` sets them.
pub open spec fn is_random_uuid(id: u128) -> bool {
    id & 0xF000_C000_0000_0000_0000u128 == 0x4000_8000_0000_0000_0000u128
}

/// `Uuid::new_v4`: a random identifier. The crate masks the random bits so that
/// the version field reads 4 and the variant field reads `10`; that is what is
/// stated, the other bits being random.
#[verifier::external_body]
pub(crate) fn new_uuid() -> (id: u128)
    ensures
        is_random_uuid(id),
{
    uuid::Uuid::new_v4().as_u128()
}

/// A fresh random identifier: a version 4 UUID, hence never the nil
/// (all-zero) one.
pub fn fresh_id() -> (id: u128)
    ensures
        is_random_uuid(id),
        id != 0,
{
    let id = new_uuid();
    assert(id & 0xF000_C000_0000_0000_0000u128 == 0x4000_8000_0000_0000_0000u128 ==> id != 0)
        by (bit_vector);
    id
}

/// `Uuid::to_string` on the UUID whose value is `id`: the hyphenated lower-case form.
#[verifier::external_body]
pub(crate) fn uuid_text(id: u128) -> (r: String)
    ensures
        r@ == uuid_hyphenated(id),
{
    uuid::Uuid::from_u128(id).to_string()
}

} // verus!
