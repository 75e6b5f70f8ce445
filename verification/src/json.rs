//! JSON text handling that goes through `serde_json`.
use vstd::prelude::*;

verus! {

/// The compact JSON text of the value that `serde_json` parses from `text`,
/// or `None` when `text` is not valid JSON.
pub uninterp spec fn json_reencoded(text: Seq<char>) -> Option<Seq<char>>;

/// Calls `serde_json::from_str::<serde_json::Value>` on `text` and, when it
/// parses, serializes the value back to compact text with `Value::to_string`.
/// The contract only names the result: it is a function of `text` alone.
#[verifier::external_body]
pub fn reencode_json(text: &str) -> (r: Option<String>)
    ensures
        r.deep_view() == json_reencoded(text@),
{
    serde_json::from_str::<serde_json::Value>(text).ok().map(|v| v.to_string())
}

} // verus!

verus! {

/// The strings that `serde_json` reads from `text` as a `Vec<String>`, or
/// `None` when `text` is not a JSON array of strings.
pub uninterp spec fn json_string_list(text: Seq<char>) -> Option<Seq<Seq<char>>>;

/// The compact JSON text that `serde_json` writes for a list of strings.
pub uninterp spec fn json_of_string_list(items: Seq<Seq<char>>) -> Seq<char>;

/// Calls `serde_json::from_str::<Vec<String>>` on `text`.
/// The contract only names the result: it is a function of `text` alone.
#[verifier::external_body]
pub fn parse_string_list(text: &str) -> (r: Option<Vec<String>>)
    ensures
        r.deep_view() == json_string_list(text@),
{
    serde_json::from_str::<Vec<String>>(text).ok()
}

/// Calls `serde_json::to_string` on a list of strings, which cannot fail.
/// Besides naming the text, the contract states that reading it back as a
/// list of strings gives the same list.
#[verifier::external_body]
pub fn encode_string_list(items: &Vec<String>) -> (r: String)
    ensures
        r@ == json_of_string_list(items.deep_view()),
        json_string_list(r@) == Some(items.deep_view()),
{
    serde_json::to_string(items).unwrap_or_default()
}

} // verus!
