//! The configuration file format: a human-editable key/value text with two
//! optional entries, a string and a sequence of strings.
//!
//! Rendering and parsing are done by the `toml` crate; both results are
//! named by uninterpreted spec functions of the text and the keys alone.
//! The library decides which entries are present (an empty field is
//! omitted) and what absent entries default to; the wrappers below only
//! move values across the crate boundary.

use vstd::prelude::*;

verus! {

/// The rendering of a key/value table holding the entry `k1 = v1` where
/// `v1` is present (a string) and the entry `k2 = v2` where `v2` is
/// present (an array of strings).
pub uninterp spec fn toml_text(
    k1: Seq<char>,
    v1: Option<Seq<char>>,
    k2: Seq<char>,
    v2: Option<Seq<Seq<char>>>,
) -> Seq<char>;

/// The two entries that parsing `text` as a key/value table yields for the
/// keys `k1` (a string) and `k2` (an array of strings): `None` where the
/// text is not a well-formed table or an entry has the wrong shape;
/// otherwise each entry is present exactly where its key is.
pub uninterp spec fn toml_fields(
    text: Seq<char>,
    k1: Seq<char>,
    k2: Seq<char>,
) -> Option<(Option<Seq<char>>, Option<Seq<Seq<char>>>)>;

/// Relies on `toml::to_string_pretty` applied to a `toml::Table` holding
/// exactly the present entries: the rendering is a function of the entries
/// alone, and an empty table renders as the empty text. It always
/// succeeds — the serializer's source fails only on non-string keys,
/// unsupported value types, absent values or invalid dates, none of which
/// a table of one string and one array of strings can hold. String and
/// string-array entries round-trip losslessly through the writer's
/// escaping, so where the keys differ (a second insert under the same key
/// would overwrite the first), parsing the rendering with `toml::from_str`
/// yields the entries back.
#[verifier::external_body]
pub(crate) fn render_fields(
    k1: &str,
    v1: Option<String>,
    k2: &str,
    v2: Option<Vec<String>>,
) -> (r: Result<String, String>)
    ensures
        r is Ok,
        match r {
            Ok(s) => {
                &&& s@ == toml_text(k1@, v1.deep_view(), k2@, v2.deep_view())
                &&& (v1 is None && v2 is None ==> s@ =~= Seq::<char>::empty())
                &&& (k1@ != k2@ ==> toml_fields(s@, k1@, k2@) == Some(
                    (v1.deep_view(), v2.deep_view()),
                ))
            },
            Err(_) => true,
        },
{
    let mut table = toml::Table::new();
    if let Some(s) = v1 {
        table.insert(k1.to_owned(), toml::Value::String(s));
    }
    if let Some(a) = v2 {
        table.insert(k2.to_owned(), toml::Value::Array(a.into_iter().map(toml::Value::String).collect()));
    }
    toml::to_string_pretty(&table).map_err(|e| e.to_string())
}

/// Relies on `toml::from_str` to parse the text as a `toml::Table`, on
/// `toml::map::Map::remove` to take out the two entries, and on
/// `toml::Value::try_into` to read them as a string and as an array of
/// strings: the outcome is a function of the text and the keys alone, and
/// the empty text is the empty table, where both entries are absent.
#[verifier::external_body]
pub(crate) fn parse_fields(
    text: &str,
    k1: &str,
    k2: &str,
) -> (r: Result<(Option<String>, Option<Vec<String>>), String>)
    ensures
        match r {
            Ok(p) => toml_fields(text@, k1@, k2@) == Some((p.0.deep_view(), p.1.deep_view())),
            Err(_) => toml_fields(text@, k1@, k2@) is None,
        },
        match r {
            Ok(p) => text@ =~= Seq::<char>::empty() ==> p.0 is None && p.1 is None,
            Err(_) => text@.len() != 0,
        },
{
    let mut table: toml::Table = match toml::from_str(text) {
        Ok(t) => t,
        Err(e) => return Err(e.to_string()),
    };
    let v1 = table.remove(k1).map(|v| v.try_into::<String>().map_err(|e| e.to_string()));
    let v2 = table.remove(k2).map(|v| v.try_into::<Vec<String>>().map_err(|e| e.to_string()));
    Ok((v1.transpose()?, v2.transpose()?))
}

} // verus!
