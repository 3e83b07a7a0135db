//! The continuation cursor of a page: the `next_url` field of its JSON body.
use vstd::prelude::*;

verus! {

/// The string value of the top-level field `key` of the JSON text `body`:
/// `None` when the text is not JSON, is not an object, lacks the field, or
/// the field is not a string.
pub uninterp spec fn json_string_field(body: Seq<char>, key: Seq<char>) -> Option<Seq<char>>;

/// The name of the body field that holds the URL of the next page.
pub open spec fn cursor_key() -> Seq<char> {
    "next_url"@
}

/// The continuation URL of a page body, if it has a usable one.
pub open spec fn next_url_of(body: Seq<char>) -> Option<Seq<char>> {
    json_string_field(body, cursor_key())
}

/// The characters of an optional string.
pub open spec fn opt_view(o: Option<String>) -> Option<Seq<char>> {
    match o {
        Some(s) => Some(s@),
        None => None,
    }
}

/// Relies on `serde_json::from_str` into a `serde_json::Value`, on
/// `Value::get` and on `Value::as_str`: the result depends on the two texts
/// alone.
#[verifier::external_body]
fn top_level_string(body: &str, key: &str) -> (r: Option<String>)
    ensures
        opt_view(r) == json_string_field(body@, key@),
{
    let value: serde_json::Value = match serde_json::from_str(body) {
        Ok(v) => v,
        Err(_) => return None,
    };
    value.get(key).and_then(serde_json::Value::as_str).map(String::from)
}

/// The `next_url` string of a page body; `None` when the body does not parse
/// as JSON, has no such field, or the field is not a string.
pub fn parse_next_url(body: &str) -> (r: Option<String>)
    ensures
        opt_view(r) == next_url_of(body@),
{
    top_level_string(body, "next_url")
}

} // verus!
