use vstd::prelude::*;
use rand::Rng;

verus! {

/// An ASCII letter (either case) or an ASCII decimal digit.
pub open spec fn is_alphanumeric_char(c: char) -> bool {
    ||| ('A' <= c && c <= 'Z')
    ||| ('a' <= c && c <= 'z')
    ||| ('0' <= c && c <= '9')
}

/// Every character of `s` is an ASCII letter or digit.
pub open spec fn is_alphanumeric_text(s: Seq<char>) -> bool {
    forall|i: int| 0 <= i < s.len() ==> #[trigger] is_alphanumeric_char(s[i])
}

/// A lowercase hexadecimal digit.
pub open spec fn is_lower_hex_char(c: char) -> bool {
    ||| ('0' <= c && c <= '9')
    ||| ('a' <= c && c <= 'f')
}

/// The hyphenated lowercase text of a version-4 (random) UUID:
/// 36 characters, hyphens at positions 8, 13, 18 and 23, lowercase hex
/// digits elsewhere, the version digit `4` at position 14 and one of
/// `8`, `9`, `a`, `b` (the RFC 4122 variant) at position 19.
pub open spec fn is_uuid_v4_text(s: Seq<char>) -> bool {
    &&& s.len() == 36
    &&& forall|i: int|
        0 <= i < 36 ==> if i == 8 || i == 13 || i == 18 || i == 23 {
            s[i] == '-'
        } else {
            is_lower_hex_char(#[trigger] s[i])
        }
    &&& s[14] == '4'
    &&& (s[19] == '8' || s[19] == '9' || s[19] == 'a' || s[19] == 'b')
}

/// `length` characters drawn from `rand`'s `Alphanumeric` distribution
/// (`rand::rng().sample_iter(Alphanumeric)`, each byte mapped by
/// `char::from`). The source of `rand` draws every byte from the 62
/// characters `A-Z`, `a-z`, `0-9`; the contract claims that and the length,
/// and nothing of which characters come out.
#[verifier::external_body]
pub fn alphanumeric_string(length: usize) -> (s: String)
    ensures
        s@.len() == length,
        is_alphanumeric_text(s@),
{
    rand::rng().sample_iter(rand::distr::Alphanumeric).take(length).map(char::from).collect::<String>()
}

/// A random string of `length` characters meant for numeric identifiers.
/// It draws from the same alphanumeric alphabet as `alphanumeric_string`.
pub fn numeric_string(length: usize) -> (s: String)
    ensures
        s@.len() == length,
        is_alphanumeric_text(s@),
{
    alphanumeric_string(length)
}

/// The text of a fresh random UUID: `uuid::Uuid::new_v4()` rendered with
/// `to_string`. The source of `uuid` masks in the version and variant bits
/// and formats the value hyphenated in lowercase; the contract claims that
/// shape, and nothing of the random digits.
#[verifier::external_body]
pub fn uuid_v4_string() -> (s: String)
    ensures
        is_uuid_v4_text(s@),
{
    uuid::Uuid::new_v4().to_string()
}

} // verus!
