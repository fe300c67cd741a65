//! Identifiers: every record is keyed by a UUID, held here as its 128-bit
//! value; the database stores the same value as 16 big-endian bytes.

use vstd::prelude::*;

verus! {

/// The value denoted by a sequence of bytes read most significant first.
pub open spec fn be_value(bytes: Seq<u8>) -> int
    decreases bytes.len(),
{
    if bytes.len() == 0 {
        0
    } else {
        be_value(bytes.drop_last()) * 256 + bytes.last()
    }
}

/// The lowercase hexadecimal digit for `n` in `0..16`.
pub open spec fn hex_digit(n: int) -> char {
    if n < 10 {
        (48 + n) as char
    } else {
        (87 + n) as char
    }
}

/// The last `count` hexadecimal digits of `v`, most significant first.
pub open spec fn hex_digits(v: int, count: nat) -> Seq<char>
    decreases count,
{
    if count == 0 {
        Seq::empty()
    } else {
        hex_digits(v / 16, (count - 1) as nat).push(hex_digit(v % 16))
    }
}

/// The hyphenated lowercase rendering of a UUID, `8-4-4-4-12` hex digits.
pub open spec fn hyphenated_text(value: u128) -> Seq<char> {
    let hex = hex_digits(value as int, 32);
    hex.subrange(0, 8) + "-"@ + hex.subrange(8, 12) + "-"@ + hex.subrange(12, 16) + "-"@
        + hex.subrange(16, 20) + "-"@ + hex.subrange(20, 32)
}

/// The decimal digit for `n` in `0..10`.
pub open spec fn decimal_digit(n: int) -> char {
    (48 + n) as char
}

/// The decimal rendering of a natural number.
pub open spec fn decimal_text(n: nat) -> Seq<char>
    decreases n,
{
    if n < 10 {
        seq![decimal_digit(n as int)]
    } else {
        decimal_text(n / 10).push(decimal_digit((n % 10) as int))
    }
}

/// `text` is accepted by the UUID parser as `value`.
pub open spec fn parses_to(text: Seq<char>, value: u128) -> bool {
    uuid_parse(text) == Ok::<u128, Seq<char>>(value)
}

/// The error text of `uuid::Uuid::from_slice` for a slice of `len` bytes.
pub open spec fn slice_length_error(len: nat) -> Seq<char> {
    "invalid length: expected 16 bytes, found "@ + decimal_text(len)
}

/// What `uuid::Uuid::parse_str` gives for `text`: the parsed UUID's value, or
/// the text of its parse error.
pub uninterp spec fn uuid_parse(text: Seq<char>) -> Result<u128, Seq<char>>;

/// Calls `uuid::Uuid::parse_str`. The result is the named `uuid_parse` of
/// the text; which texts the parser accepts is not restated here.
#[verifier::external_body]
pub(crate) fn parse_uuid(text: &str) -> (r: Result<u128, String>)
    ensures
        match r {
            Ok(v) => uuid_parse(text@) == Ok::<u128, Seq<char>>(v),
            Err(e) => uuid_parse(text@) == Err::<u128, Seq<char>>(e@),
        },
{
    uuid::Uuid::parse_str(text).map(|u| u.as_u128()).map_err(|e| e.to_string())
}

/// Calls `uuid::Uuid`'s `Display` (via `to_string`): the hyphenated
/// lowercase rendering. `parse_str` accepts every
/// rendering the crate produces, so the text parses back to the same value.
#[verifier::external_body]
pub(crate) fn uuid_to_string(value: u128) -> (r: String)
    ensures
        r@ == hyphenated_text(value),
        parses_to(r@, value),
{
    uuid::Uuid::from_u128(value).to_string()
}

/// Calls `uuid::Uuid::from_slice`: sixteen bytes are read most significant
/// first; any other length is refused with the crate's length error
/// (`invalid length: expected 16 bytes, found <len>`).
#[verifier::external_body]
pub(crate) fn uuid_from_slice(bytes: &[u8]) -> (r: Result<u128, String>)
    ensures
        r is Ok <==> bytes@.len() == 16,
        r is Ok ==> r->Ok_0 == be_value(bytes@),
        r is Err ==> r->Err_0@ == slice_length_error(bytes@.len()),
{
    uuid::Uuid::from_slice(bytes).map(|u| u.as_u128()).map_err(|e| e.to_string())
}

} // verus!
