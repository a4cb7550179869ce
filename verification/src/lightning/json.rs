//! The two things the backends need of JSON: the text under a key of a
//! reply, and a text written as a JSON string.

use vstd::prelude::*;

verus! {

/// What a reply holds under a key.
#[derive(Debug)]
pub enum JsonField {
    /// The reply is not JSON.
    Invalid,
    /// The reply is JSON but holds no text under the key.
    Absent,
    /// The text under the key.
    Text(String),
}

/// Mathematical value of a [`JsonField`].
pub enum JsonFieldView {
    Invalid,
    Absent,
    Text(Seq<char>),
}

impl View for JsonField {
    type V = JsonFieldView;

    open spec fn view(&self) -> JsonFieldView {
        match self {
            JsonField::Invalid => JsonFieldView::Invalid,
            JsonField::Absent => JsonFieldView::Absent,
            JsonField::Text(t) => JsonFieldView::Text(t@),
        }
    }
}

/// What the JSON text `body` holds under `key`, as `serde_json` reads it.
pub uninterp spec fn json_text_field(body: Seq<char>, key: Seq<char>) -> JsonFieldView;

/// `text` written as a JSON string, quotes and escapes included, as
/// `serde_json` writes it.
pub uninterp spec fn json_quoted(text: Seq<char>) -> Seq<char>;

/// Trusted: `serde_json::from_str` into a `Value`, then `Value::get` and
/// `Value::as_str`. The result is named, not described: a body that does
/// not parse is invalid, a parsed body without a string under the key is
/// absent.
#[verifier::external_body]
pub(crate) fn json_field(body: &str, key: &str) -> (r: JsonField)
    ensures
        r@ == json_text_field(body@, key@),
{
    match serde_json::from_str::<serde_json::Value>(body) {
        Ok(value) => match value.get(key).and_then(|v| v.as_str()) {
            Some(text) => JsonField::Text(text.to_string()),
            None => JsonField::Absent,
        },
        Err(_) => JsonField::Invalid,
    }
}

/// Trusted: the `Display` of `serde_json::Value::String`, which writes the
/// text as a JSON string. The result is named, not described.
#[verifier::external_body]
pub(crate) fn json_quote(text: &str) -> (r: String)
    ensures
        r@ == json_quoted(text@),
{
    serde_json::Value::String(text.to_string()).to_string()
}

} // verus!
