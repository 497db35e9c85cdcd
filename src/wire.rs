//! The JSON text of the wire format, through serde_json.
use vstd::prelude::*;
use serde_json::Value;
use std::collections::BTreeMap;

verus! {

/// Why an inbound frame could not be read as a batch of responses.
#[derive(Clone, Copy, Debug, PartialEq, Eq, Structural)]
pub enum DecodeError {
    /// The frame is not well-formed JSON.
    MalformedFrame,
    /// The frame is JSON, but not an array of objects with the expected fields.
    UnexpectedShape,
}

/// A character that serde_json writes as an escape sequence inside a string:
/// the quote, the backslash and the control characters below U+0020.
pub open spec fn needs_escape(c: char) -> bool {
    c == '"' || c == '\\' || (c as u32) < 0x20
}

/// No character of `s` needs an escape sequence in a JSON string.
pub open spec fn is_escape_free(s: Seq<char>) -> bool {
    forall|i: int| 0 <= i < s.len() ==> !needs_escape(#[trigger] s[i])
}

/// `s` between two double quotes, as it stands.
pub open spec fn quoted(s: Seq<char>) -> Seq<char> {
    seq!['"'] + s + seq!['"']
}

/// A lowercase hexadecimal digit.
pub open spec fn hex_digit(n: u32) -> char {
    seq!['0', '1', '2', '3', '4', '5', '6', '7', '8', '9', 'a', 'b', 'c', 'd', 'e', 'f'][n as int]
}

/// How serde_json writes one character inside a JSON string: the quote and the
/// backslash after a backslash, the short escapes of backspace, tab, line feed,
/// form feed and carriage return, other control characters as `\u00XX`, and
/// any other character as it is.
pub open spec fn escape_char(c: char) -> Seq<char> {
    if c == '"' {
        seq!['\\', '"']
    } else if c == '\\' {
        seq!['\\', '\\']
    } else if c == '\u{8}' {
        seq!['\\', 'b']
    } else if c == '\t' {
        seq!['\\', 't']
    } else if c == '\n' {
        seq!['\\', 'n']
    } else if c == '\u{c}' {
        seq!['\\', 'f']
    } else if c == '\r' {
        seq!['\\', 'r']
    } else if (c as u32) < 0x20 {
        seq!['\\', 'u', '0', '0', hex_digit((c as u32) / 16), hex_digit((c as u32) % 16)]
    } else {
        seq![c]
    }
}

/// The characters of `s`, each written as `escape_char` gives.
pub open spec fn escaped(s: Seq<char>) -> Seq<char>
    decreases s.len(),
{
    if s.len() == 0 {
        Seq::empty()
    } else {
        escaped(s.drop_last()) + escape_char(s.last())
    }
}

/// The JSON string literal that serde_json writes for `s`.
pub open spec fn json_string_literal(s: Seq<char>) -> Seq<char> {
    quoted(escaped(s))
}

/// A string with no character to escape is written between quotes as it is.
pub proof fn lemma_escape_free_literal(s: Seq<char>)
    requires
        is_escape_free(s),
    ensures
        json_string_literal(s) == quoted(s),
{
    lemma_escape_free_unchanged(s);
}

proof fn lemma_escape_free_unchanged(s: Seq<char>)
    requires
        is_escape_free(s),
    ensures
        escaped(s) == s,
    decreases s.len(),
{
    if s.len() > 0 {
        let prefix = s.drop_last();
        assert(is_escape_free(prefix)) by {
            assert forall|i: int| 0 <= i < prefix.len() implies !needs_escape(#[trigger] prefix[i]) by {
                assert(prefix[i] == s[i]);
            }
        }
        lemma_escape_free_unchanged(prefix);
        assert(!needs_escape(s[s.len() - 1]));
        assert(escape_char(s.last()) == seq![s.last()]);
        assert(prefix.push(s.last()) =~= s);
        assert(prefix + seq![s.last()] =~= s);
    }
}

/// serde_json reads `text` as one JSON value: well-formed JSON, within its
/// nesting limit.
pub uninterp spec fn is_json_text(text: Seq<char>) -> bool;

/// The array of objects that serde_json reads from `text`: for each object its
/// fields in ascending key order, each as (key, the value if it is a string,
/// the value's JSON text as serde_json writes it). `None` where `text` is no
/// array of objects.
pub uninterp spec fn object_array(text: Seq<char>) -> Option<Seq<Seq<(Seq<char>, Option<Seq<char>>, Seq<char>)>>>;

/// Relies on `serde_json::to_string` on a `str`: the string between double
/// quotes, each byte escaped as the `ESCAPE` table and `write_char_escape` of
/// serde_json's serializer give (only ASCII bytes are ever escaped, so this is
/// `escape_char` on each character). Writing a `str` into the in-memory buffer
/// does not fail.
#[verifier::external_body]
pub(crate) fn json_string(s: &str) -> (r: String)
    ensures
        r@ == json_string_literal(s@),
{
    match serde_json::to_string(s) {
        Ok(t) => t,
        Err(_) => String::new(),
    }
}

/// Relies on `serde_json::from_str` into `serde_json::Value`: whether the text
/// is JSON that serde_json can read.
#[verifier::external_body]
pub(crate) fn check_json(text: &str) -> (r: bool)
    ensures
        r == is_json_text(text@),
{
    serde_json::from_str::<serde_json::Value>(text).is_ok()
}

/// Relies on `serde_json::from_str` into `Vec<BTreeMap<String, Value>>`, and on
/// `Value`'s `Display` for each value's JSON text; each map is handed out as its
/// fields in the map's order, a string value also moved out of its `Value`.
#[verifier::external_body]
pub(crate) fn parse_objects(text: &str) -> (r: Option<Vec<Vec<(String, Option<String>, String)>>>)
    ensures
        match r {
            Some(objs) => object_array(text@) == Some(objs.deep_view()),
            None => object_array(text@) is None,
        },
{
    let objs = serde_json::from_str::<Vec<BTreeMap<String, Value>>>(text).ok()?;
    Some(objs.into_iter().map(|o| o.into_iter().map(|(k, v)| {
        let json = v.to_string();
        match v {
            Value::String(s) => (k, Some(s), json),
            _ => (k, None, json),
        }
    }).collect()).collect())
}

} // verus!
