//! The boundary to the `toml` crate.
//!
//! The configuration file is TOML text. Parsing it, looking a key up in the
//! parsed table, and reading a value's payload are done by the `toml` crate;
//! everything here either declares one of its types or wraps one of its
//! functions behind a contract. The parse result and the payloads are named
//! by uninterpreted spec functions, since the TOML grammar itself is not
//! restated here; all of the library's contracts speak in those names.

use vstd::prelude::*;

verus! {

#[verifier::external_type_specification]
#[verifier::external_body]
#[verifier::reject_recursive_types(K)]
#[verifier::reject_recursive_types(V)]
pub struct ExTomlMap<K, V>(toml::map::Map<K, V>);

#[verifier::external_type_specification]
#[verifier::external_body]
pub struct ExTomlValue(toml::Value);

#[verifier::external_type_specification]
#[verifier::external_body]
pub struct ExTomlDeError(toml::de::Error);

/// The root table that TOML text parses to, or `None` where the text is not
/// well-formed TOML. Parsing is a function of the text alone.
pub uninterp spec fn toml_table_of(s: Seq<char>) -> Option<toml::Table>;

/// What a parsed table holds: a finite map from key to value.
pub uninterp spec fn table_entries(t: toml::Table) -> Map<Seq<char>, toml::Value>;

/// The payload of a TOML value that is an integer; `None` for any other kind.
pub uninterp spec fn integer_payload(v: toml::Value) -> Option<i64>;

/// The payload of a TOML value that is a boolean; `None` for any other kind.
pub uninterp spec fn boolean_payload(v: toml::Value) -> Option<bool>;

/// The elements of a TOML value that is an array; `None` for any other kind.
pub uninterp spec fn array_payload(v: toml::Value) -> Option<Seq<toml::Value>>;

/// Relies on `str::parse::<toml::Table>` (the `FromStr` impl of `toml::Table`,
/// a deterministic function of the text): the root table on well-formed TOML
/// text, a diagnostic error otherwise.
#[verifier::external_body]
pub(crate) fn parse_toml(s: &str) -> (r: Result<toml::Table, toml::de::Error>)
    ensures
        match r {
            Ok(t) => toml_table_of(s@) == Some(t),
            Err(_) => toml_table_of(s@) is None,
        },
{
    s.parse::<toml::Table>()
}

/// Relies on the `Display` impl of `toml::de::Error` for a human-readable
/// description of the parse failure; nothing is assumed of its content.
#[verifier::external_body]
pub(crate) fn parse_error_message(e: &toml::de::Error) -> String {
    e.to_string()
}

/// Relies on `toml::map::Map::get`: the value stored under the key, or `None`
/// where the table has no such key.
#[verifier::external_body]
pub(crate) fn table_get<'a>(t: &'a toml::Table, key: &str) -> (r: Option<&'a toml::Value>)
    ensures
        match r {
            Some(v) => table_entries(*t).dom().contains(key@) && table_entries(*t)[key@] == *v,
            None => !table_entries(*t).dom().contains(key@),
        },
{
    t.get(key)
}

/// Relies on `toml::Value::as_integer`: the payload for an integer value,
/// `None` for every other kind of value.
#[verifier::external_body]
pub(crate) fn value_as_integer(v: &toml::Value) -> (r: Option<i64>)
    ensures
        r == integer_payload(*v),
{
    v.as_integer()
}

/// Relies on `toml::Value::as_bool`: the payload for a boolean value,
/// `None` for every other kind of value.
#[verifier::external_body]
pub(crate) fn value_as_bool(v: &toml::Value) -> (r: Option<bool>)
    ensures
        r == boolean_payload(*v),
{
    v.as_bool()
}

/// Relies on `toml::Value::as_array`: the elements for an array value,
/// `None` for every other kind of value.
#[verifier::external_body]
pub(crate) fn value_as_array<'a>(v: &'a toml::Value) -> (r: Option<&'a Vec<toml::Value>>)
    ensures
        match r {
            Some(a) => array_payload(*v) == Some(a@),
            None => array_payload(*v) is None,
        },
{
    v.as_array()
}

} // verus!
