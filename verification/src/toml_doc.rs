//! Trusted access to the `toml` crate.
//!
//! A configuration document is parsed by `toml` into its table type, which
//! is opaque here. Each projection an accessor makes — what the text
//! parses to, what a table holds under a key, what a value contains — is a
//! function of its argument alone, so each gets a name below, and the
//! accessor's contract ties its result to that name. Everything decided
//! from the projections is verified elsewhere.

use vstd::prelude::*;

verus! {

/// `toml::Value`, declared so parsed documents can flow through verified
/// code. Values are opaque; the trusted accessors below read them.
#[verifier::external_type_specification]
#[verifier::external_body]
pub struct ExTomlValue(toml::Value);

/// `toml::map::Map`, the table type of the `toml` crate (`toml::Table` is
/// `Map<String, Value>`).
#[verifier::external_type_specification]
#[verifier::external_body]
#[verifier::reject_recursive_types(K)]
#[verifier::reject_recursive_types(V)]
pub struct ExTomlMap<K, V>(toml::map::Map<K, V>);

/// What the text parses to as a TOML document, or nothing when it is
/// malformed.
pub uninterp spec fn doc_of(s: Seq<char>) -> Option<toml::map::Map<String, toml::Value>>;

/// What a table holds under a key, if anything.
pub uninterp spec fn entry_of(t: toml::map::Map<String, toml::Value>, key: Seq<char>) -> Option<
    toml::Value,
>;

/// The text a value contains, when it is a TOML string.
pub uninterp spec fn text_of(v: toml::Value) -> Option<Seq<char>>;

/// The elements a value contains, when it is a TOML array.
pub uninterp spec fn items_of(v: toml::Value) -> Option<Seq<toml::Value>>;

/// The table a value contains, when it is a TOML table.
pub uninterp spec fn entries_of(v: toml::Value) -> Option<toml::map::Map<String, toml::Value>>;

/// Relies on `str::parse::<toml::Table>` (the `FromStr` impl of
/// `toml::Table`): parses the text as a TOML document, a function of the
/// text alone; `Err` carries the parser's message.
#[verifier::external_body]
pub(crate) fn parse_toml_table(s: &str) -> (r: Result<toml::map::Map<String, toml::Value>, String>)
    ensures
        r matches Ok(t) ==> doc_of(s@) == Some(t),
        r is Err ==> doc_of(s@) is None,
{
    match s.parse::<toml::Table>() {
        Ok(t) => Ok(t),
        Err(e) => Err(format!("{}", e)),
    }
}

/// Relies on `toml::map::Map::get`: the value stored under `key`, if any.
#[verifier::external_body]
pub(crate) fn table_entry<'a>(
    t: &'a toml::map::Map<String, toml::Value>,
    key: &str,
) -> (r: Option<&'a toml::Value>)
    ensures
        r matches Some(v) ==> entry_of(*t, key@) == Some(*v),
        r is None ==> entry_of(*t, key@) is None,
{
    t.get(key)
}

/// Relies on `toml::Value::as_str`: the contained text when the value is a
/// TOML string.
#[verifier::external_body]
pub(crate) fn value_text(v: &toml::Value) -> (r: Option<String>)
    ensures
        r matches Some(s) ==> text_of(*v) == Some(s@),
        r is None ==> text_of(*v) is None,
{
    v.as_str().map(str::to_owned)
}

/// Relies on `toml::Value::as_array`: the contained elements when the
/// value is a TOML array.
#[verifier::external_body]
pub(crate) fn value_items<'a>(v: &'a toml::Value) -> (r: Option<&'a Vec<toml::Value>>)
    ensures
        r matches Some(list) ==> items_of(*v) == Some(list@),
        r is None ==> items_of(*v) is None,
{
    v.as_array()
}

/// Relies on `toml::Value::as_table`: the contained table when the value
/// is a TOML table.
#[verifier::external_body]
pub(crate) fn value_entries<'a>(v: &'a toml::Value) -> (r: Option<
    &'a toml::map::Map<String, toml::Value>,
>)
    ensures
        r matches Some(t) ==> entries_of(*v) == Some(*t),
        r is None ==> entries_of(*v) is None,
{
    v.as_table()
}

} // verus!
