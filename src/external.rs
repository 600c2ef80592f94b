use vstd::arithmetic::power2::pow2;
use vstd::prelude::*;

verus! {

/// The identifier that `uuid` reads from a string, if it reads one.
pub uninterp spec fn uuid_parse(s: Seq<char>) -> Option<u128>;

/// The lower-case hexadecimal digits, by value.
pub open spec fn hex_digits() -> Seq<char> {
    seq!['0', '1', '2', '3', '4', '5', '6', '7', '8', '9', 'a', 'b', 'c', 'd', 'e', 'f']
}

/// The `k`-th of the 32 hexadecimal digits of `id`, the most significant first.
pub open spec fn nibble(id: u128, k: int) -> int {
    (id as nat / pow2((4 * (31 - k)) as nat)) as int % 16
}

/// How many hyphens the canonical text holds before position `j`.
pub open spec fn hyphens_before(j: int) -> int {
    (if j > 8 { 1int } else { 0 }) + (if j > 13 { 1int } else { 0 }) + (if j > 18 {
        1int
    } else {
        0
    }) + (if j > 23 { 1int } else { 0 })
}

/// The canonical text of an identifier: its 32 lower-case hexadecimal
/// digits, most significant first, with hyphens at positions 8, 13, 18 and 23.
pub open spec fn uuid_text(id: u128) -> Seq<char> {
    Seq::new(
        36,
        |j: int|
            if j == 8 || j == 13 || j == 18 || j == 23 {
                '-'
            } else {
                hex_digits()[nibble(id, j - hyphens_before(j))]
            },
    )
}

/// Relies on uuid::Uuid::parse_str, read through Uuid::as_u128. It rejects
/// any input whose length is not one of the accepted forms, the empty one
/// among them.
#[verifier::external_body]
pub(crate) fn parse_identifier(s: &str) -> (r: Option<u128>)
    ensures
        r == uuid_parse(s@),
        s@.len() == 0 ==> r.is_none(),
{
    match uuid::Uuid::parse_str(s) {
        Ok(u) => Some(u.as_u128()),
        Err(_) => None,
    }
}

/// Relies on uuid::Uuid::from_u128 and uuid::Uuid's `Display`, which writes
/// the hyphenated lower-case form of the big-endian value, a form that
/// uuid::Uuid::parse_str reads back to the same identifier.
#[verifier::external_body]
pub(crate) fn identifier_text(id: u128) -> (r: String)
    ensures
        r@ == uuid_text(id),
        uuid_parse(r@) == Some(id),
{
    uuid::Uuid::from_u128(id).to_string()
}

/// Relies on uuid::Uuid::new_v4 for a random identifier; nothing is known of
/// its value.
#[verifier::external_body]
pub(crate) fn random_identifier() -> (r: u128) {
    uuid::Uuid::new_v4().as_u128()
}

/// Relies on chrono::Utc::now, read as milliseconds since the Unix epoch;
/// nothing is known of its value.
#[verifier::external_body]
pub(crate) fn current_millis() -> (r: i64) {
    chrono::Utc::now().timestamp_millis()
}

} // verus!
