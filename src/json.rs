//! JSON text through serde_json: string literals, and strings looked up in a
//! document.

use vstd::prelude::*;

use crate::text::opt_chars;

verus! {

/// A lowercase hexadecimal digit.
pub open spec fn hex_digit(n: int) -> char {
    seq!['0', '1', '2', '3', '4', '5', '6', '7', '8', '9', 'a', 'b', 'c', 'd', 'e', 'f'][n]
}

/// How one character is written inside a JSON string literal: quote and
/// backslash escaped, control characters by their short escape or as
/// `\u00XX`, everything else as it is.
pub open spec fn json_escape_char(c: char) -> Seq<char> {
    let u = c as u32;
    if c == '"' {
        seq!['\\', '"']
    } else if c == '\\' {
        seq!['\\', '\\']
    } else if u == 0x8 {
        seq!['\\', 'b']
    } else if u == 0x9 {
        seq!['\\', 't']
    } else if u == 0xA {
        seq!['\\', 'n']
    } else if u == 0xC {
        seq!['\\', 'f']
    } else if u == 0xD {
        seq!['\\', 'r']
    } else if u < 0x20 {
        seq!['\\', 'u', '0', '0', hex_digit((u / 16) as int), hex_digit((u % 16) as int)]
    } else {
        seq![c]
    }
}

/// The characters of `s`, each escaped.
pub open spec fn json_escaped(s: Seq<char>) -> Seq<char>
    decreases s.len(),
{
    if s.len() == 0 {
        Seq::empty()
    } else {
        json_escaped(s.drop_last()) + json_escape_char(s.last())
    }
}

/// `s` as a JSON string literal.
pub open spec fn json_string(s: Seq<char>) -> Seq<char> {
    seq!['"'] + json_escaped(s) + seq!['"']
}

/// Relies on `serde_json::to_string` on a `str`: the text between double
/// quotes, with `"` and `\` escaped, the control characters U+0008, U+0009,
/// U+000A, U+000C and U+000D written `\b \t \n \f \r`, the other ones below
/// U+0020 as `\u00XX` in lowercase hex, and every other character as it is.
/// On a `str` it writes into a `Vec`, which never fails, so the error arm is
/// never taken.
#[verifier::external_body]
pub(crate) fn json_quote(s: &str) -> (r: String)
    ensures
        r@ == json_string(s@),
{
    match serde_json::to_string(s) {
        Ok(q) => q,
        Err(_) => String::new(),
    }
}

/// The string that the JSON document `body` holds at the JSON pointer
/// `pointer`, if the body parses and a string is there.
pub uninterp spec fn json_text_at(body: Seq<char>, pointer: Seq<char>) -> Option<Seq<char>>;

/// Relies on `serde_json::from_str` into a `serde_json::Value`, then
/// `Value::pointer` and `Value::as_str`: the string at the pointer, `None`
/// when the body is not one JSON document, nothing is at the pointer, or what
/// is there is no string.
#[verifier::external_body]
pub(crate) fn text_at(body: &str, pointer: &str) -> (r: Option<String>)
    ensures
        opt_chars(r) == json_text_at(body@, pointer@),
{
    let doc: serde_json::Value = serde_json::from_str(body).ok()?;
    doc.pointer(pointer).and_then(|v| v.as_str()).map(String::from)
}

} // verus!
