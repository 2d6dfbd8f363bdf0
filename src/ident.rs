//! Item identifiers: 128-bit values, written and read in the hyphenated
//! lower-case form that serves as the cache key.
use vstd::prelude::*;

verus! {

/// The lower-case hexadecimal digit for `d` in `0..16`.
pub open spec fn hex_digit(d: int) -> char {
    seq!['0', '1', '2', '3', '4', '5', '6', '7', '8', '9', 'a', 'b', 'c', 'd', 'e', 'f'][d]
}

/// The `k`-th of the 32 hexadecimal digits of `n`, most significant first.
pub open spec fn nibble(n: u128, k: int) -> int {
    (n as int / vstd::arithmetic::power::pow(16, (31 - k) as nat)) % 16
}

/// Which of the 32 digits stands at position `i` of the hyphenated text.
pub open spec fn digit_at(i: int) -> int {
    if i < 8 {
        i
    } else if i < 13 {
        i - 1
    } else if i < 18 {
        i - 2
    } else if i < 23 {
        i - 3
    } else {
        i - 4
    }
}

/// The hyphenated form of `n`: 8-4-4-4-12 lower-case hexadecimal digits.
pub open spec fn id_text(n: u128) -> Seq<char> {
    Seq::new(
        36,
        |i: int|
            if i == 8 || i == 13 || i == 18 || i == 23 {
                '-'
            } else {
                hex_digit(nibble(n, digit_at(i)))
            },
    )
}

/// What `uuid::Uuid::parse_str` makes of a text, when it accepts it.
pub uninterp spec fn uuid_parsed(s: Seq<char>) -> Option<u128>;

#[verifier::external_type_specification]
#[verifier::external_body]
pub struct ExUuidError(uuid::Error);

/// Relies on `uuid::Uuid::from_u128` (big-endian) and the `Display` of `Uuid`,
/// which writes the hyphenated lower-case form.
#[verifier::external_body]
fn uuid_text(n: u128) -> (r: String)
    ensures
        r@ == id_text(n),
{
    uuid::Uuid::from_u128(n).to_string()
}

/// Relies on `uuid::Uuid::parse_str` and `Uuid::as_u128`; the parser reads
/// back the hyphenated form that `Display` writes.
#[verifier::external_body]
fn uuid_parse(s: &str) -> (r: Result<u128, uuid::Error>)
    ensures
        match r {
            Ok(n) => uuid_parsed(s@) == Some(n),
            Err(_) => uuid_parsed(s@) is None,
        },
        r is Err ==> forall|n: u128| #[trigger] id_text(n) != s@,
        r is Ok ==> (forall|n: u128| #[trigger] id_text(n) == s@ ==> r->Ok_0 == n),
{
    uuid::Uuid::parse_str(s).map(|u| u.as_u128())
}

/// Relies on `uuid::Uuid::new_v4` and `Uuid::as_u128`: a random identifier.
#[verifier::external_body]
pub(crate) fn fresh_id() -> (r: u128) {
    uuid::Uuid::new_v4().as_u128()
}

/// The cache key of an item: the hyphenated form of its identifier.
pub fn cache_key(id: u128) -> (r: String)
    ensures
        r@ == id_text(id),
{
    uuid_text(id)
}

/// Reads an identifier; `None` where the text is not one that the identifier
/// syntax accepts.
pub fn parse_id(s: &str) -> (r: Option<u128>)
    ensures
        r == uuid_parsed(s@),
        forall|n: u128| #[trigger] id_text(n) == s@ ==> r == Some(n),
{
    match uuid_parse(s) {
        Ok(n) => Some(n),
        Err(_) => None,
    }
}

} // verus!
