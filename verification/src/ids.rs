use vstd::prelude::*;

verus! {

/// The 128-bit value of a BSON UUID, held as a plain integer.
///
/// Its big-endian bytes are the bytes of the `bson::Uuid` that MongoDB stores.
#[derive(Clone, Copy, Debug, PartialEq, Eq, Structural, Hash)]
pub struct MongolId(pub u128);

/// The value of a hexadecimal digit, either case.
pub open spec fn hex_value(c: char) -> Option<int> {
    if '0' <= c && c <= '9' {
        Some(c as int - 48)
    } else if 'a' <= c && c <= 'f' {
        Some(c as int - 87)
    } else if 'A' <= c && c <= 'F' {
        Some(c as int - 55)
    } else {
        None
    }
}

/// Every character is a hexadecimal digit.
pub open spec fn all_hex(s: Seq<char>) -> bool {
    forall|i: int| 0 <= i < s.len() ==> (#[trigger] hex_value(s[i])) is Some
}

/// The number that hexadecimal digits write, most significant first.
pub open spec fn hex_number(s: Seq<char>) -> int
    decreases s.len(),
{
    if s.len() == 0 {
        0
    } else {
        hex_number(s.drop_last()) * 16 + hex_value(s.last())->0
    }
}

/// The value of 32 hexadecimal digits, where they are all digits.
pub open spec fn simple_uuid(s: Seq<char>) -> Option<u128> {
    if s.len() == 32 && all_hex(s) {
        Some(hex_number(s) as u128)
    } else {
        None
    }
}

/// The value of the hyphenated form: 36 characters, hyphens at 8, 13, 18
/// and 23 and hexadecimal digits elsewhere.
pub open spec fn hyphenated_uuid(s: Seq<char>) -> Option<u128> {
    if s.len() == 36 && s[8] == '-' && s[13] == '-' && s[18] == '-' && s[23] == '-' {
        simple_uuid(
            s.subrange(0, 8) + s.subrange(9, 13) + s.subrange(14, 18) + s.subrange(19, 23)
                + s.subrange(24, 36),
        )
    } else {
        None
    }
}

/// The character with ASCII capitals made small.
pub open spec fn ascii_lower(c: char) -> char {
    if 'A' <= c && c <= 'Z' {
        (c as int + 32) as char
    } else {
        c
    }
}

/// The value that `bson::Uuid::parse_str` gives for `text` (`None` where it
/// rejects the text), as a 128-bit big-endian integer: the 32-digit simple
/// form, the hyphenated form, the hyphenated form in braces, or the
/// hyphenated form after "urn:uuid:" in any case. (Text that is not ASCII
/// never parses, so counting characters is counting the parser's bytes.)
#[verifier::opaque]
pub open spec fn parsed_uuid(text: Seq<char>) -> Option<u128> {
    if text.len() == 32 {
        simple_uuid(text)
    } else if text.len() == 36 {
        hyphenated_uuid(text)
    } else if text.len() == 38 {
        if text[0] == '{' && text[37] == '}' {
            hyphenated_uuid(text.subrange(1, 37))
        } else {
            None
        }
    } else if text.len() == 45 {
        if text.take(9).map_values(|c: char| ascii_lower(c)) == "urn:uuid:"@ {
            hyphenated_uuid(text.skip(9))
        } else {
            None
        }
    } else {
        None
    }
}

/// The lowercase hexadecimal digit of `n` (0 to 15).
pub open spec fn hex_digit(n: int) -> char {
    if n < 10 {
        (48 + n) as char
    } else {
        (87 + n) as char
    }
}

/// The number of hyphens before position `p` of a hyphenated UUID text.
pub open spec fn hyphens_before(p: int) -> int {
    if p <= 8 {
        0
    } else if p <= 13 {
        1
    } else if p <= 18 {
        2
    } else if p <= 23 {
        3
    } else {
        4
    }
}

/// The `k`-th hexadecimal digit (0 the most significant) of `id`.
pub open spec fn nibble(id: u128, k: int) -> int {
    (id as int / vstd::arithmetic::power::pow(16, (31 - k) as nat)) % 16
}

/// The text that `bson::Uuid`'s `Display` writes for the id with value `id`:
/// 36 characters, the 32 lowercase hexadecimal digits of the value, most
/// significant first, with hyphens at positions 8, 13, 18 and 23.
pub open spec fn uuid_text(id: u128) -> Seq<char> {
    Seq::new(
        36,
        |p: int|
            if p == 8 || p == 13 || p == 18 || p == 23 {
                '-'
            } else {
                hex_digit(nibble(id, p - hyphens_before(p)))
            },
    )
}

/// Calls `bson::Uuid::parse_str`. Claims that the call returns a value exactly
/// when `parsed_uuid(text@)` is `Some`, and then that value, and that a text
/// whose length is not one of the four forms' (32 simple, 36 hyphenated, 38
/// braced, 45 URN) is refused.
#[verifier::external_body]
pub(crate) fn parse_uuid(text: &str) -> (r: Option<MongolId>)
    ensures
        match r {
            Some(id) => parsed_uuid(text@) == Some(id.0),
            None => parsed_uuid(text@) is None,
        },
        !(text@.len() == 32 || text@.len() == 36 || text@.len() == 38 || text@.len() == 45)
            ==> r is None,
{
    match bson::Uuid::parse_str(text) {
        Ok(uuid) => Some(MongolId(u128::from_be_bytes(uuid.bytes()))),
        Err(_) => None,
    }
}

/// Calls `Display` of `bson::Uuid` (through `to_string`), which writes the
/// hyphenated lowercase form. Claims the result is `uuid_text(id)`, and, as
/// the `uuid` crate documents that its parser accepts every format it writes,
/// that parsing that text gives the id back.
#[verifier::external_body]
pub(crate) fn uuid_to_string(id: MongolId) -> (r: String)
    ensures
        r@ == uuid_text(id.0),
        parsed_uuid(r@) == Some(id.0),
{
    bson::Uuid::from_bytes(id.0.to_be_bytes()).to_string()
}

} // verus!
