//! The calls into `serde_json` that the signalling logic makes.
use vstd::prelude::*;

verus! {

/// `serde_json::Value`, carried through opaquely.
#[verifier::external_type_specification]
#[verifier::external_body]
pub struct ExJsonValue(serde_json::Value);

/// `serde_json::Error`, carried through opaquely.
#[verifier::external_type_specification]
#[verifier::external_body]
pub struct ExJsonError(serde_json::Error);

/// A hexadecimal digit, lower case (`0 <= d < 16`).
pub open spec fn hex_digit(d: int) -> char {
    if d < 10 {
        (48 + d) as char
    } else {
        (87 + d) as char
    }
}

/// How serde_json writes one character inside a JSON string: `"` and `\` after
/// a backslash; backspace, tab, line feed, form feed and carriage return as
/// `\b \t \n \f \r`; any other control character below U+0020 as `\u00`
/// and two lower-case hexadecimal digits; every other character as itself.
pub open spec fn json_escape_char(c: char) -> Seq<char> {
    let n = c as int;
    if c == '"' {
        seq!['\\', '"']
    } else if c == '\\' {
        seq!['\\', '\\']
    } else if n == 8 {
        seq!['\\', 'b']
    } else if n == 9 {
        seq!['\\', 't']
    } else if n == 10 {
        seq!['\\', 'n']
    } else if n == 12 {
        seq!['\\', 'f']
    } else if n == 13 {
        seq!['\\', 'r']
    } else if n < 32 {
        seq!['\\', 'u', '0', '0', hex_digit(n / 16), hex_digit(n % 16)]
    } else {
        seq![c]
    }
}

/// The characters of a string, each escaped as serde_json escapes it.
pub open spec fn json_escaped(s: Seq<char>) -> Seq<char>
    decreases s.len(),
{
    if s.len() == 0 {
        Seq::empty()
    } else {
        json_escaped(s.drop_last()) + json_escape_char(s.last())
    }
}

/// The JSON text that `serde_json::to_string` writes for a string: the
/// escaped characters between double quotes.
pub open spec fn json_string_text(s: Seq<char>) -> Seq<char> {
    seq!['"'] + json_escaped(s) + seq!['"']
}

/// Whether `serde_json::from_str::<serde_json::Value>` accepts a text as one
/// JSON document.
pub uninterp spec fn json_text_parses(text: Seq<char>) -> bool;

/// The value that `serde_json::from_str::<serde_json::Value>` reads from a
/// text that it accepts.
pub uninterp spec fn json_document(text: Seq<char>) -> serde_json::Value;

/// What `serde_json::Value::get` gives for a string key: the member of an
/// object under that key; `None` for a missing key or a value that is no
/// object.
pub uninterp spec fn json_member_of(v: serde_json::Value, key: Seq<char>) -> Option<serde_json::Value>;

/// What `serde_json::Value::as_str` gives: the characters of a JSON string,
/// `None` for any other value.
pub uninterp spec fn json_text_of(v: serde_json::Value) -> Option<Seq<char>>;

/// What `serde_json::Value::as_u64` gives: a number that fits in a `u64`,
/// `None` for any other value.
pub uninterp spec fn json_u64_of(v: serde_json::Value) -> Option<u64>;

/// Calls `serde_json::to_string` on a string slice. Its result is the text
/// `json_string_text(s@)`, as serde_json's `format_escaped_str` and its
/// escape table (`ESCAPE`, with lower-case `HEX_DIGITS`) write it. The string
/// is written into an in-memory `Vec<u8>`, whose writes do not fail, so the
/// `Err` arm is never taken.
#[verifier::external_body]
pub(crate) fn json_quote(s: &str) -> (r: String)
    ensures
        r@ == json_string_text(s@),
{
    match serde_json::to_string(s) {
        Ok(t) => t,
        Err(_) => String::new(),
    }
}

/// Calls `serde_json::from_str::<serde_json::Value>`: whether it succeeds is
/// named `json_text_parses`, and the value it reads `json_document`, both
/// functions of the text alone.
#[verifier::external_body]
pub(crate) fn json_parse(text: &str) -> (r: Result<serde_json::Value, serde_json::Error>)
    ensures
        r is Ok <==> json_text_parses(text@),
        r matches Ok(v) ==> v == json_document(text@),
{
    serde_json::from_str::<serde_json::Value>(text)
}

/// Calls `serde_json::Value::get` with a string key; its result is named
/// `json_member_of`.
#[verifier::external_body]
pub(crate) fn json_member<'a>(v: &'a serde_json::Value, key: &str) -> (r: Option<&'a serde_json::Value>)
    ensures
        match r {
            Some(m) => json_member_of(*v, key@) == Some(*m),
            None => json_member_of(*v, key@) is None,
        },
{
    v.get(key)
}

/// Calls `serde_json::Value::as_str`, copying the string out; its result is
/// named `json_text_of`.
#[verifier::external_body]
pub(crate) fn json_as_text(v: &serde_json::Value) -> (r: Option<String>)
    ensures
        match r {
            Some(t) => json_text_of(*v) == Some(t@),
            None => json_text_of(*v) is None,
        },
{
    v.as_str().map(|s| s.to_owned())
}

/// Calls `serde_json::Value::as_u64`; its result is named `json_u64_of`.
#[verifier::external_body]
pub(crate) fn json_as_u64(v: &serde_json::Value) -> (r: Option<u64>)
    ensures
        r == json_u64_of(*v),
{
    v.as_u64()
}

} // verus!
