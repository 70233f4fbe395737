//! Readers of outside formats: UTF-8 with replacement, JSON and TOML
//! documents, through std, `serde_json` and `toml`.
use vstd::prelude::*;
use vstd::utf8::{decode_utf8, valid_utf8};

verus! {

/// A parsed JSON document, carried through without being read.
#[verifier::external_type_specification]
#[verifier::external_body]
pub struct ExJsonValue(serde_json::Value);

/// The text `String::from_utf8_lossy` decodes from some bytes.
pub uninterp spec fn utf8_lossy(bytes: Seq<u8>) -> Seq<char>;

/// What `serde_json::from_slice::<serde_json::Value>` makes of some bytes:
/// the JSON document they hold, or the text of the error it reports.
pub uninterp spec fn json_parse(bytes: Seq<u8>) -> Result<serde_json::Value, Seq<char>>;

/// The text member `field` of the JSON object some bytes hold, where the
/// bytes are a JSON object with a string under that member.
pub uninterp spec fn json_text_member(bytes: Seq<u8>, field: Seq<char>) -> Option<Seq<char>>;

/// The string the TOML document `text` holds under the top-level key `key`,
/// where the document parses and holds a string there.
pub uninterp spec fn toml_text_entry(text: Seq<char>, key: Seq<char>) -> Option<Seq<char>>;

/// Calls `String::from_utf8_lossy`. Its documentation gives the decoded text
/// for valid UTF-8, which the contract states; for other bytes (each invalid
/// sequence becomes U+FFFD) the result is only named.
#[verifier::external_body]
pub(crate) fn decode_lossy(bytes: &[u8]) -> (r: String)
    ensures
        r@ == utf8_lossy(bytes@),
        valid_utf8(bytes@) ==> r@ == decode_utf8(bytes@),
{
    String::from_utf8_lossy(bytes).into_owned()
}

/// Calls `serde_json::from_slice::<serde_json::Value>`, turning its error into
/// the error's text. The contract claims that the outcome, the document or
/// the error text, is a function of the bytes (`json_parse`).
#[verifier::external_body]
pub(crate) fn parse_json(bytes: &[u8]) -> (r: Result<serde_json::Value, String>)
    ensures
        match r {
            Ok(v) => json_parse(bytes@) == Ok::<serde_json::Value, Seq<char>>(v),
            Err(t) => json_parse(bytes@) == Err::<serde_json::Value, Seq<char>>(t@),
        },
{
    match serde_json::from_slice::<serde_json::Value>(bytes) {
        Ok(v) => Ok(v),
        Err(e) => Err(e.to_string()),
    }
}

/// Parses the bytes with `serde_json::from_slice::<serde_json::Value>` and
/// reads member `field` with `Value::get` and `Value::as_str`. The contract
/// claims only that the outcome is a function of the bytes and the field
/// (`json_text_member`).
#[verifier::external_body]
pub(crate) fn read_json_text_member(bytes: &[u8], field: &str) -> (r: Option<String>)
    ensures
        match r {
            Some(t) => json_text_member(bytes@, field@) == Some(t@),
            None => json_text_member(bytes@, field@) is None,
        },
{
    match serde_json::from_slice::<serde_json::Value>(bytes) {
        Ok(v) => match v.get(field) {
            Some(m) => match m.as_str() {
                Some(t) => Some(t.to_string()),
                None => None,
            },
            None => None,
        },
        Err(_) => None,
    }
}

/// Parses `text` with `str::parse::<toml::Value>` and, when the document is a
/// table, reads its entry `key` with `Table::get`, keeping it when it is a
/// string. The contract claims only that the outcome is a function of the
/// text and the key (`toml_text_entry`).
#[verifier::external_body]
pub(crate) fn read_toml_text_entry(text: &str, key: &str) -> (r: Option<String>)
    ensures
        match r {
            Some(t) => toml_text_entry(text@, key@) == Some(t@),
            None => toml_text_entry(text@, key@) is None,
        },
{
    match text.parse::<toml::Value>() {
        Ok(toml::Value::Table(table)) => match table.get(key) {
            Some(toml::Value::String(s)) => Some(s.clone()),
            _ => None,
        },
        _ => None,
    }
}

} // verus!
