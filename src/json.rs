//! Reading and writing JSON values through serde_json.
//!
//! Parsing and string escaping are serde_json's work: their results are named
//! here, and the codec in `wire` is stated over those names.
use vstd::prelude::*;

verus! {

/// What serde_json makes of `text` read as one JSON object: its members, each
/// value written back as compact JSON text.
pub uninterp spec fn json_object_members(text: Seq<char>) -> Option<Seq<(Seq<char>, Seq<char>)>>;

/// What serde_json makes of `text` read as a JSON string.
pub uninterp spec fn json_string_value(text: Seq<char>) -> Option<Seq<char>>;

/// What serde_json makes of `text` read as a JSON string or `null`.
pub uninterp spec fn json_opt_string_value(text: Seq<char>) -> Option<Option<Seq<char>>>;

/// What serde_json makes of `text` read as an array of JSON strings or `null`.
pub uninterp spec fn json_opt_string_list_value(text: Seq<char>) -> Option<Option<Seq<Seq<char>>>>;

/// What serde_json makes of `text` read as an unsigned 64-bit integer.
pub uninterp spec fn json_u64_value(text: Seq<char>) -> Option<u64>;

/// What serde_json makes of `text` read as an array of two-string arrays.
pub uninterp spec fn json_pair_list_value(text: Seq<char>) -> Option<Seq<(Seq<char>, Seq<char>)>>;

/// The JSON string literal that serde_json writes for `s`, quotes and escapes
/// included.
pub uninterp spec fn json_quoted(s: Seq<char>) -> Seq<char>;

/// The JSON array of string literals that serde_json writes for `v`.
pub uninterp spec fn json_quoted_list(v: Seq<Seq<char>>) -> Seq<char>;

pub open spec fn string_views(v: Seq<String>) -> Seq<Seq<char>> {
    v.map_values(|s: String| s@)
}

pub open spec fn pair_views(v: Seq<(String, String)>) -> Seq<(Seq<char>, Seq<char>)> {
    v.map_values(|p: (String, String)| (p.0@, p.1@))
}

/// The decimal digits of `n`, most significant first.
pub open spec fn decimal(n: nat) -> Seq<char>
    decreases n,
{
    if n < 10 {
        seq!["0123456789"@[n as int]]
    } else {
        decimal(n / 10).push("0123456789"@[(n % 10) as int])
    }
}

/// Relies on serde_json::from_str into a serde_json::Map: the object's members,
/// each value written back with serde_json::Value's Display.
#[verifier::external_body]
pub(crate) fn parse_object(text: &str) -> (r: Option<Vec<(String, String)>>)
    ensures
        r.is_some() == json_object_members(text@).is_some(),
        r.is_some() ==> json_object_members(text@) == Some(pair_views(r.unwrap()@)),
{
    serde_json::from_str::<serde_json::Map<String, serde_json::Value>>(text).ok().map(
        |m| m.into_iter().map(|(k, v)| (k, v.to_string())).collect(),
    )
}

/// Relies on serde_json::from_str into a String.
#[verifier::external_body]
pub(crate) fn parse_string(text: &str) -> (r: Option<String>)
    ensures
        r.is_some() == json_string_value(text@).is_some(),
        r.is_some() ==> json_string_value(text@) == Some(r.unwrap()@),
{
    serde_json::from_str::<String>(text).ok()
}

/// Relies on serde_json::from_str into an Option<String>: `null` gives `None`.
#[verifier::external_body]
pub(crate) fn parse_opt_string(text: &str) -> (r: Option<Option<String>>)
    ensures
        r.is_some() == json_opt_string_value(text@).is_some(),
        r matches Some(Some(s)) ==> json_opt_string_value(text@) == Some(Some(s@)),
        r matches Some(None) ==> json_opt_string_value(text@) == Some(None::<Seq<char>>),
{
    serde_json::from_str::<Option<String>>(text).ok()
}

/// Relies on serde_json::from_str into an Option<Vec<String>>: `null` gives
/// `None`.
#[verifier::external_body]
pub(crate) fn parse_opt_string_list(text: &str) -> (r: Option<Option<Vec<String>>>)
    ensures
        r.is_some() == json_opt_string_list_value(text@).is_some(),
        r matches Some(Some(v)) ==> json_opt_string_list_value(text@) == Some(
            Some(string_views(v@)),
        ),
        r matches Some(None) ==> json_opt_string_list_value(text@) == Some(
            None::<Seq<Seq<char>>>,
        ),
{
    serde_json::from_str::<Option<Vec<String>>>(text).ok()
}

/// Relies on serde_json::from_str into a u64.
#[verifier::external_body]
pub(crate) fn parse_u64(text: &str) -> (r: Option<u64>)
    ensures
        r == json_u64_value(text@),
{
    serde_json::from_str::<u64>(text).ok()
}

/// Relies on serde_json::from_str into a Vec<(String, String)>: each pair is a
/// JSON array of two strings.
#[verifier::external_body]
pub(crate) fn parse_pair_list(text: &str) -> (r: Option<Vec<(String, String)>>)
    ensures
        r.is_some() == json_pair_list_value(text@).is_some(),
        r.is_some() ==> json_pair_list_value(text@) == Some(pair_views(r.unwrap()@)),
{
    serde_json::from_str::<Vec<(String, String)>>(text).ok()
}

/// Relies on serde_json::to_string on a str, which cannot fail: a JSON string
/// literal that serde_json reads back as `s`.
#[verifier::external_body]
pub(crate) fn quote(s: &str) -> (r: String)
    ensures
        r@ == json_quoted(s@),
        json_string_value(r@) == Some(s@),
        json_opt_string_value(r@) == Some(Some(s@)),
{
    serde_json::to_string(s).unwrap()
}

/// Relies on serde_json::to_string on a slice of Strings, which cannot fail: a
/// JSON array that serde_json reads back as `v`.
#[verifier::external_body]
pub(crate) fn quote_list(v: &Vec<String>) -> (r: String)
    ensures
        r@ == json_quoted_list(string_views(v@)),
        json_opt_string_list_value(r@) == Some(Some(string_views(v@))),
{
    serde_json::to_string(v).unwrap()
}

/// Relies on serde_json::to_string on `None`, which writes `null`: serde_json
/// reads it back as an absent string or string list.
#[verifier::external_body]
pub(crate) fn write_null() -> (r: String)
    ensures
        r@ == "null"@,
        json_opt_string_value(r@) == Some(None::<Seq<char>>),
        json_opt_string_list_value(r@) == Some(None::<Seq<Seq<char>>>),
{
    serde_json::to_string(&None::<String>).unwrap()
}

/// Relies on serde_json::to_string on a u64, which writes its decimal digits.
#[verifier::external_body]
pub(crate) fn write_u64(n: u64) -> (r: String)
    ensures
        r@ == decimal(n as nat),
{
    serde_json::to_string(&n).unwrap()
}

} // verus!
