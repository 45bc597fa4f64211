//! JSON text for strings, as `serde_json` writes it.

use vstd::prelude::*;

verus! {

/// The error of `serde_json`, carried through as an opaque value.
#[verifier::external_type_specification]
#[verifier::external_body]
pub struct ExJsonError(serde_json::Error);

/// The JSON string literal, quotes and escapes included, that `serde_json`
/// writes for `text`.
pub uninterp spec fn json_string(text: Seq<char>) -> Seq<char>;

/// Whether the encoder escapes `c` inside a string literal: the quote, the
/// backslash and the control characters below U+0020.
pub open spec fn needs_escape(c: char) -> bool {
    c == '"' || c == '\\' || (c as u32) < 0x20
}

/// Whether `text` holds no character that the encoder escapes.
pub open spec fn is_plain(text: Seq<char>) -> bool {
    forall|i: int| 0 <= i < text.len() ==> !needs_escape(#[trigger] text[i])
}

/// `text` between two quotes.
pub open spec fn quoted(text: Seq<char>) -> Seq<char> {
    seq!['"'] + text + seq!['"']
}

/// Calls `serde_json::to_string` on a string slice. Trusted: the call
/// succeeds, and its output is the literal that `json_string` names, which
/// depends on the characters of `text` alone; for a text without a character
/// that the encoder escapes, the literal is the text between two quotes.
/// Success rests on the encoder's source: for a string slice it only writes
/// into a byte vector in memory, and its errors are those of the writer,
/// which a vector never gives. The plain case rests on its escape table,
/// which marks the quote, the backslash and the bytes below 0x20 and no
/// others.
#[verifier::external_body]
pub(crate) fn encode_string(text: &str) -> (encoded: Result<String, serde_json::Error>)
    ensures
        encoded is Ok,
        encoded matches Ok(literal) ==> literal@ == json_string(text@),
        encoded matches Ok(literal) ==> (is_plain(text@) ==> literal@ == quoted(text@)),
{
    serde_json::to_string(text)
}

/// Writes `text` as a JSON string literal.
pub fn to_json_string(text: &str) -> (literal: String)
    ensures
        literal@ == json_string(text@),
        is_plain(text@) ==> literal@ == quoted(text@),
{
    match encode_string(text) {
        Ok(literal) => literal,
        Err(_) => String::new(),
    }
}

} // verus!
