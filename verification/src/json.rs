//! Reading one string field of a JSON document.
use vstd::prelude::*;

verus! {

/// Name for what `serde_json` reads from `content` under `key`: the string held
/// there when `content` parses as a JSON value that has a string under `key`,
/// else nothing.
pub uninterp spec fn json_str_field(content: Seq<char>, key: Seq<char>) -> Option<Seq<char>>;

/// `serde_json::from_str::<serde_json::Value>` on `content`, then the string under
/// `key` (`Value::get`, `Value::as_str`); the result is named by `json_str_field`.
#[verifier::external_body]
pub(crate) fn str_field(content: &str, key: &str) -> (r: Option<String>)
    ensures
        match r {
            Some(t) => json_str_field(content@, key@) == Some(t@),
            None => json_str_field(content@, key@) is None,
        },
{
    let value: serde_json::Value = serde_json::from_str(content).ok()?;
    value.get(key)?.as_str().map(String::from)
}

} // verus!
