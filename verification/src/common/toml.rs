//! Reading and editing TOML documents through `toml_edit`.
//!
//! What a document holds is `toml_edit`'s to say: each lookup below has a
//! name for its result, a function of the text and the keys alone.
use toml_edit::DocumentMut;
use vstd::prelude::*;

verus! {

/// Whether `toml_edit` reads `content` as a TOML document
/// (`content.parse::<toml_edit::DocumentMut>()` succeeds).
pub uninterp spec fn toml_parses(content: Seq<char>) -> bool;

/// In the document `content`, the item `document[table][key]`:
/// `None` where indexing with either key fails (`toml_edit` panics there);
/// `Some(None)` where the item is not a string; `Some(Some(s))` where it is
/// the string `s`.
pub uninterp spec fn toml_str_at(content: Seq<char>, table: Seq<char>, key: Seq<char>) -> Option<Option<Seq<char>>>;

/// Whether the document `content` has a top-level item named `key`
/// (`document.get(key).is_some()`).
pub uninterp spec fn toml_has_key(content: Seq<char>, key: Seq<char>) -> bool;

/// In the document `content`, `document[table].get(key)` read as an array:
/// `None` where the table is missing (`toml_edit` panics there);
/// `Some(None)` where there is no such item or it is not an array;
/// otherwise its elements, each `Some(s)` for a string `s`, `None` for
/// anything else.
pub uninterp spec fn toml_str_list_at(content: Seq<char>, table: Seq<char>, key: Seq<char>) -> Option<Option<Seq<Option<Seq<char>>>>>;

/// The text of the document `content` after `document[table][key]` is set
/// to the string `value`; `None` where that assignment fails (`toml_edit`
/// panics there: `table` names something that is neither a table nor an
/// inline table).
pub uninterp spec fn toml_with_str_at(content: Seq<char>, table: Seq<char>, key: Seq<char>, value: Seq<char>) -> Option<Seq<char>>;

/// The entries of `document[table]` where it is a table or an inline
/// table, in the document's order: each key, with its string value where
/// the value is a string; `None` where there is no such table.
pub uninterp spec fn toml_entries_at(content: Seq<char>, table: Seq<char>) -> Option<Seq<(Seq<char>, Option<Seq<char>>)>>;

/// The entries of a table, as read (see `toml_entries_at`).
pub open spec fn toml_entries_view(v: Option<Vec<(String, Option<String>)>>) -> Option<Seq<(Seq<char>, Option<Seq<char>>)>> {
    match v {
        None => None,
        Some(items) => Some(items@.map_values(|e: (String, Option<String>)| (e.0@, match e.1 {
            Some(s) => Some(s@),
            None => None,
        }))),
    }
}

/// The text of the document `content` after its top-level item `key` is
/// set to the string `value` (`document[key] = toml_edit::value(value)`,
/// which cannot fail at the top level of a document).
pub uninterp spec fn toml_with_top_str(content: Seq<char>, key: Seq<char>, value: Seq<char>) -> Seq<char>;

/// The text of the document `content` after its top-level item `key` is
/// set to the array of the strings `values`, in order.
pub uninterp spec fn toml_with_top_list(content: Seq<char>, key: Seq<char>, values: Seq<Seq<char>>) -> Seq<char>;

/// The string at one place of a document, as found.
#[derive(Debug, Clone, PartialEq, Eq)]
pub enum TomlStr {
    /// a key of the path is missing
    Missing,
    /// the item there is not a string
    NotString,
    Found(String),
}

/// A `TomlStr` as the named results above write it.
pub open spec fn toml_str_view(v: TomlStr) -> Option<Option<Seq<char>>> {
    match v {
        TomlStr::Missing => None,
        TomlStr::NotString => Some(None),
        TomlStr::Found(s) => Some(Some(s@)),
    }
}

/// A list of strings, as found (see `toml_str_list_at`).
pub open spec fn toml_list_view(v: Option<Option<Vec<Option<String>>>>) -> Option<Option<Seq<Option<Seq<char>>>>> {
    match v {
        None => None,
        Some(None) => Some(None),
        Some(Some(items)) => Some(Some(items@.map_values(|i: Option<String>| match i {
            Some(s) => Some(s@),
            None => None,
        }))),
    }
}

/// `content.parse::<toml_edit::DocumentMut>()`, then `document[table][key].as_str()`
/// where both keys are there (found with `Item::get`, so that no lookup
/// panics).  Claimed: `Ok` exactly where `toml_parses(content@)`, and then
/// the result is `toml_str_at(content@, table@, key@)`.  The text of a
/// parse error is not described.
#[verifier::external_body]
pub(crate) fn toml_get_str(content: &str, table: &str, key: &str) -> (r: Result<TomlStr, String>)
    ensures
        r is Ok <==> toml_parses(content@),
        r matches Ok(v) ==> toml_str_view(v) == toml_str_at(content@, table@, key@),
{
    let doc = content.parse::<DocumentMut>().map_err(|e| e.to_string())?;
    Ok(match doc.get(table).and_then(|t| t.get(key)) {
        None => TomlStr::Missing,
        Some(item) => match item.as_str() {
            None => TomlStr::NotString,
            Some(s) => TomlStr::Found(s.to_string()),
        },
    })
}

/// `content.parse::<toml_edit::DocumentMut>()`, then `document.get(key).is_some()`.
/// Claimed: `Ok` exactly where `toml_parses(content@)`, and then the
/// result is `toml_has_key(content@, key@)`.
#[verifier::external_body]
pub(crate) fn toml_contains(content: &str, key: &str) -> (r: Result<bool, String>)
    ensures
        r is Ok <==> toml_parses(content@),
        r matches Ok(b) ==> b == toml_has_key(content@, key@),
{
    let doc = content.parse::<DocumentMut>().map_err(|e| e.to_string())?;
    Ok(doc.get(key).is_some())
}

/// `content.parse::<toml_edit::DocumentMut>()`, then
/// `document[table].get(key)` and `Item::as_array`, each element read with
/// `Value::as_str`.  Claimed: `Ok` exactly where `toml_parses(content@)`,
/// and then the result is `toml_str_list_at(content@, table@, key@)`.
#[verifier::external_body]
pub(crate) fn toml_get_str_list(content: &str, table: &str, key: &str) -> (r: Result<Option<Option<Vec<Option<String>>>>, String>)
    ensures
        r is Ok <==> toml_parses(content@),
        r matches Ok(v) ==> toml_list_view(v) == toml_str_list_at(content@, table@, key@),
{
    let doc = content.parse::<DocumentMut>().map_err(|e| e.to_string())?;
    Ok(doc.get(table).map(|t| {
        t.get(key).and_then(|item| item.as_array()).map(|a| {
            a.iter().map(|v| v.as_str().map(|s| s.to_string())).collect()
        })
    }))
}

/// `content.parse::<toml_edit::DocumentMut>()`, then
/// `document[table][key] = toml_edit::value(value)` where `document[table]`
/// can be indexed (it is missing, a table or an inline table), then
/// `document.to_string()`.  Claimed: `Ok` exactly where
/// `toml_parses(content@)`, and then the result is
/// `toml_with_str_at(content@, table@, key@, value@)`.
#[verifier::external_body]
pub(crate) fn toml_set_str(content: &str, table: &str, key: &str, value: &str) -> (r: Result<Option<String>, String>)
    ensures
        r is Ok <==> toml_parses(content@),
        r matches Ok(v) ==> (match v {
            Some(s) => toml_with_str_at(content@, table@, key@, value@) == Some(s@),
            None => toml_with_str_at(content@, table@, key@, value@) is None,
        }),
{
    let mut doc = content.parse::<DocumentMut>().map_err(|e| e.to_string())?;
    let t = &mut doc[table];
    if !(t.is_none() || t.is_table() || t.is_inline_table()) {
        return Ok(None);
    }
    t[key] = toml_edit::value(value);
    Ok(Some(doc.to_string()))
}

/// `content.parse::<toml_edit::DocumentMut>()`, then `document.get(table)`
/// read with `Item::as_table_like`, its entries listed with
/// `TableLike::iter` (each value read with `Item::as_str`).  Claimed: `Ok`
/// exactly where `toml_parses(content@)`, and then the result is
/// `toml_entries_at(content@, table@)`.
#[verifier::external_body]
pub(crate) fn toml_get_entries(content: &str, table: &str) -> (r: Result<Option<Vec<(String, Option<String>)>>, String>)
    ensures
        r is Ok <==> toml_parses(content@),
        r matches Ok(v) ==> toml_entries_view(v) == toml_entries_at(content@, table@),
{
    let doc = content.parse::<DocumentMut>().map_err(|e| e.to_string())?;
    Ok(doc.get(table).and_then(|t| t.as_table_like()).map(|t| {
        t.iter().map(|(k, v)| (k.to_string(), v.as_str().map(|s| s.to_string()))).collect()
    }))
}

/// `content.parse::<toml_edit::DocumentMut>()`, then
/// `document[key] = toml_edit::value(value)`, then `document.to_string()`.
/// Claimed: `Ok` exactly where `toml_parses(content@)`, and then the
/// result is `toml_with_top_str(content@, key@, value@)`.
#[verifier::external_body]
pub(crate) fn toml_set_top_str(content: &str, key: &str, value: &str) -> (r: Result<String, String>)
    ensures
        r is Ok <==> toml_parses(content@),
        r matches Ok(s) ==> s@ == toml_with_top_str(content@, key@, value@),
{
    let mut doc = content.parse::<DocumentMut>().map_err(|e| e.to_string())?;
    doc[key] = toml_edit::value(value);
    Ok(doc.to_string())
}

/// `content.parse::<toml_edit::DocumentMut>()`, then `document[key]` set
/// to a `toml_edit::Array` of the strings `values`, then
/// `document.to_string()`.  Claimed: `Ok` exactly where
/// `toml_parses(content@)`, and then the result is
/// `toml_with_top_list(content@, key@, values' texts)`.
#[verifier::external_body]
pub(crate) fn toml_set_top_list(content: &str, key: &str, values: &Vec<String>) -> (r: Result<String, String>)
    ensures
        r is Ok <==> toml_parses(content@),
        r matches Ok(s) ==> s@ == toml_with_top_list(content@, key@, values@.map_values(|v: String| v@)),
{
    let mut doc = content.parse::<DocumentMut>().map_err(|e| e.to_string())?;
    let array: toml_edit::Array = values.iter().map(|v| v.as_str()).collect();
    doc[key] = toml_edit::value(array);
    Ok(doc.to_string())
}

} // verus!
