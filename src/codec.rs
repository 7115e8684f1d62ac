//! The outside encoders and the JSON reader that the wire format relies on.
use base64::Engine;
use vstd::prelude::*;

verus! {

#[verifier::external_type_specification]
#[verifier::external_body]
pub struct ExJsonError(serde_json::Error);

/// The standard base64 alphabet: the character of each six-bit value.
pub const BASE64_ALPHABET: &'static str = "ABCDEFGHIJKLMNOPQRSTUVWXYZabcdefghijklmnopqrstuvwxyz0123456789+/";

/// Lower-case hexadecimal digits.
pub const HEX_DIGITS: &'static str = "0123456789abcdef";

pub open spec fn base64_digit(v: int) -> char {
    BASE64_ALPHABET@[v]
}

/// Padded standard-alphabet base64 text of a byte string: each group of
/// three bytes becomes four characters of six bits each, and a last group of
/// one or two bytes is padded with `=`.
pub open spec fn base64_of(bytes: Seq<u8>) -> Seq<char>
    decreases bytes.len(),
{
    if bytes.len() == 0 {
        Seq::empty()
    } else {
        let a = bytes[0] as int;
        if bytes.len() == 1 {
            seq![base64_digit(a / 4), base64_digit((a % 4) * 16), '=', '=']
        } else {
            let b = bytes[1] as int;
            if bytes.len() == 2 {
                seq![base64_digit(a / 4), base64_digit((a % 4) * 16 + b / 16), base64_digit((b % 16) * 4), '=']
            } else {
                let c = bytes[2] as int;
                seq![
                    base64_digit(a / 4),
                    base64_digit((a % 4) * 16 + b / 16),
                    base64_digit((b % 16) * 4 + c / 64),
                    base64_digit(c % 64),
                ] + base64_of(bytes.subrange(3, bytes.len() as int))
            }
        }
    }
}

/// How a JSON string literal writes one character: the quote and the
/// backslash after a backslash, the five control characters with a short
/// escape by their letter, the other control characters as `\u00` and two
/// hex digits, and every other character as it is.
pub open spec fn json_escaped_char(c: char) -> Seq<char> {
    if c == '"' {
        seq!['\\', '"']
    } else if c == '\\' {
        seq!['\\', '\\']
    } else if c == '\u{8}' {
        seq!['\\', 'b']
    } else if c == '\t' {
        seq!['\\', 't']
    } else if c == '\n' {
        seq!['\\', 'n']
    } else if c == '\u{c}' {
        seq!['\\', 'f']
    } else if c == '\r' {
        seq!['\\', 'r']
    } else if (c as u32) < 0x20 {
        seq!['\\', 'u', '0', '0', HEX_DIGITS@[(c as u32) as int / 16], HEX_DIGITS@[(c as u32) as int % 16]]
    } else {
        seq![c]
    }
}

/// A text with every character escaped as a JSON string literal writes it.
pub open spec fn json_escaped(text: Seq<char>) -> Seq<char>
    decreases text.len(),
{
    if text.len() == 0 {
        Seq::empty()
    } else {
        json_escaped(text.drop_last()) + json_escaped_char(text.last())
    }
}

/// The JSON string literal that holds a text: the escaped text in quotes.
pub open spec fn json_string_literal(text: Seq<char>) -> Seq<char> {
    seq!['"'] + json_escaped(text) + seq!['"']
}

/// Whether serde_json reads a text as one JSON value (well-formed, nested
/// no deeper than its recursion limit, nothing but whitespace after it).
pub uninterp spec fn json_parses(text: Seq<char>) -> bool;

/// Whether the JSON value of a text is an object with a member `key`.
pub uninterp spec fn json_member_present(text: Seq<char>, key: Seq<char>) -> bool;

/// Whether the JSON value of a text has, at the JSON pointer `pointer`, a null.
pub uninterp spec fn json_null_at(text: Seq<char>, pointer: Seq<char>) -> bool;

/// The integer that the JSON value of a text has at the JSON pointer
/// `pointer`, when it is there, non-negative and fits in 64 bits.
pub uninterp spec fn json_u64_at(text: Seq<char>, pointer: Seq<char>) -> Option<u64>;

/// The string that the JSON value of a text has at the JSON pointer `pointer`.
pub uninterp spec fn json_str_at(text: Seq<char>, pointer: Seq<char>) -> Option<Seq<char>>;

/// The compact JSON text of whatever the JSON value of a text has at the
/// JSON pointer `pointer`.
pub uninterp spec fn json_text_at(text: Seq<char>, pointer: Seq<char>) -> Option<Seq<char>>;

/// Relies on base64's `STANDARD` engine `encode`: the padded base64 text of
/// the bytes. It panics when the output length overflows `usize`, which the
/// bound on the input rules out.
#[verifier::external_body]
pub(crate) fn encode_base64(bytes: &[u8]) -> (r: String)
    requires
        bytes@.len() <= usize::MAX / 2,
    ensures
        r@ == base64_of(bytes@),
{
    base64::engine::general_purpose::STANDARD.encode(bytes)
}

/// Relies on `serde_json::to_string` applied to a `str`: the text written as
/// a JSON string literal. A `str` is written into a `Vec` by escaping its
/// characters, which cannot fail, so the result is always `Ok`.
#[verifier::external_body]
pub(crate) fn json_quote(text: &str) -> (r: Result<String, serde_json::Error>)
    ensures
        r is Ok,
        r is Ok ==> r->Ok_0@ == json_string_literal(text@),
{
    serde_json::to_string(text)
}

/// Relies on `serde_json::from_str` into a `serde_json::Value`: whether the
/// text is read as one JSON value.
#[verifier::external_body]
pub(crate) fn json_is_valid(text: &str) -> (r: bool)
    ensures
        r == json_parses(text@),
{
    serde_json::from_str::<serde_json::Value>(text).is_ok()
}

/// Relies on `serde_json::from_str` into a `serde_json::Value` and on
/// `Value::get` with a key: whether the document is an object with that
/// member. A text that does not parse has none.
#[verifier::external_body]
pub(crate) fn json_has_member(text: &str, key: &str) -> (r: bool)
    ensures
        r == json_member_present(text@, key@),
        !json_parses(text@) ==> !r,
{
    match serde_json::from_str::<serde_json::Value>(text) {
        Ok(v) => v.get(key).is_some(),
        Err(_) => false,
    }
}

/// Relies on `serde_json::from_str` into a `serde_json::Value`, on
/// `Value::pointer` and on `Value::is_null`: whether there is a null at the
/// pointer.
#[verifier::external_body]
pub(crate) fn json_is_null_at(text: &str, pointer: &str) -> (r: bool)
    ensures
        r == json_null_at(text@, pointer@),
        !json_parses(text@) ==> !r,
{
    match serde_json::from_str::<serde_json::Value>(text) {
        Ok(v) => v.pointer(pointer).map_or(false, serde_json::Value::is_null),
        Err(_) => false,
    }
}

/// Relies on `serde_json::from_str` into a `serde_json::Value`, on
/// `Value::pointer` and on `Value::as_u64`: the integer at the pointer.
#[verifier::external_body]
pub(crate) fn json_u64_at_pointer(text: &str, pointer: &str) -> (r: Option<u64>)
    ensures
        r == json_u64_at(text@, pointer@),
        !json_parses(text@) ==> r is None,
{
    match serde_json::from_str::<serde_json::Value>(text) {
        Ok(v) => v.pointer(pointer).and_then(serde_json::Value::as_u64),
        Err(_) => None,
    }
}

/// Relies on `serde_json::from_str` into a `serde_json::Value`, on
/// `Value::pointer` and on `Value::as_str`: the string at the pointer.
#[verifier::external_body]
pub(crate) fn json_str_at_pointer(text: &str, pointer: &str) -> (r: Option<String>)
    ensures
        r matches Some(s) ==> json_str_at(text@, pointer@) == Some(s@),
        r is None ==> json_str_at(text@, pointer@) is None,
        !json_parses(text@) ==> r is None,
{
    match serde_json::from_str::<serde_json::Value>(text) {
        Ok(v) => v.pointer(pointer).and_then(serde_json::Value::as_str).map(str::to_string),
        Err(_) => None,
    }
}

/// Relies on `serde_json::from_str` into a `serde_json::Value`, on
/// `Value::pointer` and on `Value`'s `Display`: the compact JSON text of the
/// value at the pointer.
#[verifier::external_body]
pub(crate) fn json_text_at_pointer(text: &str, pointer: &str) -> (r: Option<String>)
    ensures
        r matches Some(s) ==> json_text_at(text@, pointer@) == Some(s@),
        r is None ==> json_text_at(text@, pointer@) is None,
        !json_parses(text@) ==> r is None,
{
    match serde_json::from_str::<serde_json::Value>(text) {
        Ok(v) => v.pointer(pointer).map(ToString::to_string),
        Err(_) => None,
    }
}

} // verus!
