use vstd::prelude::*;

verus! {

/// The lower-case hexadecimal digit for `n` (0 to 15).
pub open spec fn hex_digit(n: int) -> char {
    if n < 10 {
        (48 + n) as char
    } else {
        (87 + n) as char
    }
}

/// The hexadecimal digit of `v` at position `k`, counting from the most
/// significant of its 32 digits.
pub open spec fn uuid_nibble(v: u128, k: int) -> int {
    (v as int / vstd::arithmetic::power2::pow2((4 * (31 - k)) as nat) as int) % 16
}

/// Which of the 32 digits the character at position `i` of the hyphenated
/// form shows.
pub open spec fn uuid_digit_index(i: int) -> int {
    if i < 8 {
        i
    } else if i < 13 {
        i - 1
    } else if i < 18 {
        i - 2
    } else if i < 23 {
        i - 3
    } else {
        i - 4
    }
}

/// The hyphenated lower-case form of the UUID whose 128 bits are `v`:
/// 32 hexadecimal digits, most significant first, grouped 8-4-4-4-12.
pub open spec fn uuid_text(v: u128) -> Seq<char> {
    Seq::new(
        36,
        |i: int|
            if i == 8 || i == 13 || i == 18 || i == 23 {
                '-'
            } else {
                hex_digit(uuid_nibble(v, uuid_digit_index(i)))
            },
    )
}

/// The 128 bits of the UUID that `uuid::Uuid::parse_str` reads from `s`, or
/// `None` where it refuses `s`.
pub uninterp spec fn uuid_parse(s: Seq<char>) -> Option<u128>;

/// Writes the UUID whose 128 bits are `v` (`uuid::Uuid::from_u128`) with its
/// `Display`, which the uuid crate documents as the hyphenated lower-case form.
#[verifier::external_body]
pub(crate) fn uuid_to_string(v: u128) -> (r: String)
    ensures
        r@ == uuid_text(v),
{
    uuid::Uuid::from_u128(v).to_string()
}

/// Reads a UUID with `uuid::Uuid::parse_str` and gives its 128 bits
/// (`as_u128`). The contract claims that the outcome depends on `s` alone,
/// through the name `uuid_parse`, and that the hyphenated lower-case form of a
/// UUID is read back as that UUID; which other texts it accepts is not stated.
#[verifier::external_body]
pub(crate) fn parse_uuid(s: &str) -> (r: Result<u128, uuid::Error>)
    ensures
        r is Ok <==> uuid_parse(s@) is Some,
        r matches Ok(v) ==> uuid_parse(s@) == Some(v),
        r is Ok || forall|v: u128| #[trigger] uuid_text(v) != s@,
        r matches Ok(w) ==> forall|v: u128| #[trigger] uuid_text(v) == s@ ==> w == v,
{
    match uuid::Uuid::parse_str(s) {
        Ok(u) => Ok(u.as_u128()),
        Err(e) => Err(e),
    }
}

} // verus!
