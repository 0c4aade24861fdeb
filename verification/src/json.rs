//! JSON text, written and read by the `serde_json` crate.

use crate::hex::hex_digit;
use vstd::prelude::*;
use vstd::utf8::*;

verus! {

/// The error that the `serde_json` crate reports.
#[verifier::external_type_specification]
#[verifier::external_body]
pub struct ExJsonError(serde_json::Error);

/// What stands for the character `c` inside a JSON string: the quotation
/// mark, the backslash and the control characters below U+0020 are escaped,
/// and every other character stands for itself.
pub open spec fn escaped_char(c: char) -> Seq<char> {
    if c == '"' {
        seq!['\\', '"']
    } else if c == '\\' {
        seq!['\\', '\\']
    } else if c == '\u{8}' {
        seq!['\\', 'b']
    } else if c == '\u{c}' {
        seq!['\\', 'f']
    } else if c == '\n' {
        seq!['\\', 'n']
    } else if c == '\r' {
        seq!['\\', 'r']
    } else if c == '\t' {
        seq!['\\', 't']
    } else if (c as u32) < 0x20 {
        seq![
            '\\',
            'u',
            '0',
            '0',
            hex_digit((c as u32) as int / 16),
            hex_digit((c as u32) as int % 16),
        ]
    } else {
        seq![c]
    }
}

/// The characters of `text`, each as it stands inside a JSON string.
pub open spec fn escaped_text(text: Seq<char>) -> Seq<char>
    decreases text.len(),
{
    if text.len() == 0 {
        Seq::empty()
    } else {
        escaped_text(text.drop_last()) + escaped_char(text.last())
    }
}

/// The JSON string that holds `text`: its escaped characters between
/// quotation marks.
pub open spec fn json_string(text: Seq<char>) -> Seq<char> {
    seq!['"'] + escaped_text(text) + seq!['"']
}

/// The members of the JSON object that the `serde_json` crate reads from
/// `bytes` when every member must hold a string: each member's name with its
/// string, in ascending order of the names, where a name that the text
/// repeats stands once, with the last of its strings. `None` where it reports
/// an error.
pub uninterp spec fn json_string_members(bytes: Seq<u8>) -> Option<Seq<(Seq<char>, Seq<char>)>>;

/// The text that the standard library's lossy conversion reads from `bytes`.
pub uninterp spec fn lossy_text(bytes: Seq<u8>) -> Seq<char>;

/// Calls `serde_json::to_string` on a string slice. The contract claims that
/// the call succeeds and that it writes the quotation marks and the escapes
/// that `json_string` spells out.
#[verifier::external_body]
pub(crate) fn encode_string(text: &str) -> (encoded: Result<String, serde_json::Error>)
    ensures
        match encoded {
            Ok(json) => json@ == json_string(text@),
            Err(_) => false,
        },
{
    serde_json::to_string(text)
}

/// Calls `serde_json::from_slice` for a map from strings to strings that is
/// ordered by its keys, and hands back the map's entries in that order. The
/// contract claims that the outcome depends on `bytes` alone and is the one
/// that `json_string_members` names.
#[verifier::external_body]
pub(crate) fn parse_string_members(bytes: &[u8]) -> (parsed: Result<
    Vec<(String, String)>,
    serde_json::Error,
>)
    ensures
        match parsed {
            Ok(members) => json_string_members(bytes@) == Some(members.deep_view()),
            Err(_) => json_string_members(bytes@) is None,
        },
{
    serde_json::from_slice::<std::collections::BTreeMap<String, String>>(bytes).map(
        |members| members.into_iter().collect(),
    )
}

/// Calls `serde::de::Error::custom` of `serde_json::Error` to make an error
/// that carries `message`. Nothing is claimed of the error.
#[verifier::external_body]
pub(crate) fn schema_error(message: &str) -> (error: serde_json::Error) {
    <serde_json::Error as serde::de::Error>::custom(message)
}

/// Calls `String::from_utf8_lossy`. The contract claims that the outcome
/// depends on `bytes` alone and that bytes which are valid UTF-8 are read as
/// the text that they encode.
#[verifier::external_body]
pub(crate) fn text_from_bytes(bytes: &[u8]) -> (text: String)
    ensures
        text@ == lossy_text(bytes@),
        valid_utf8(bytes@) ==> text@ == decode_utf8(bytes@),
{
    String::from_utf8_lossy(bytes).into_owned()
}

} // verus!
