//! The library's own model of a parsed configuration document: a tree of
//! plain values. Text is turned into this tree by the `toml` crate behind a
//! single trusted wrapper; everything that reads the tree is verified.

use vstd::prelude::*;
use crate::str_eq;

verus! {

/// One value of a configuration document. Floats and datetimes are carried
/// only as their rendered text: no recognized option field holds either, so
/// the schema rejects them wherever they appear in a typed position.
#[derive(Debug)]
pub enum TomlValue {
    Bool(bool),
    Int(i64),
    Float(String),
    Text(String),
    Datetime(String),
    Arr(Vec<TomlValue>),
    Table(Vec<(String, TomlValue)>),
}

/// Names the result of parsing TOML text: the document's value tree when the
/// text is well-formed TOML, `None` when it is malformed. What
/// `toml::from_str` returns depends on the text alone.
pub uninterp spec fn toml_doc(s: Seq<char>) -> Option<TomlValue>;

#[verifier::external_type_specification]
#[verifier::external_body]
pub struct ExTomlValue(toml::Value);

/// Relies on the shape of `toml::Value`: rebuilds the parsed tree in the
/// library's own representation, variant by variant, moving each field.
/// Called only from `parse_toml_text`.
#[verifier::external_body]
fn from_toml_value(v: toml::Value) -> TomlValue {
    match v {
        toml::Value::Boolean(b) => TomlValue::Bool(b),
        toml::Value::Integer(i) => TomlValue::Int(i),
        toml::Value::Float(x) => TomlValue::Float(x.to_string()),
        toml::Value::String(s) => TomlValue::Text(s),
        toml::Value::Datetime(d) => TomlValue::Datetime(d.to_string()),
        toml::Value::Array(a) => TomlValue::Arr(a.into_iter().map(from_toml_value).collect()),
        toml::Value::Table(t) => TomlValue::Table(
            t.into_iter().map(|(k, w)| (k, from_toml_value(w))).collect(),
        ),
    }
}

/// Relies on `toml::from_str::<toml::Value>`: parses TOML text into a value
/// tree, deterministically in the text; malformed text gives an error whose
/// message describes the syntax fault.
#[verifier::external_body]
pub(crate) fn parse_toml_text(s: &str) -> (r: Result<TomlValue, String>)
    ensures
        match r {
            Ok(v) => toml_doc(s@) == Some(v),
            Err(_) => toml_doc(s@) is None,
        },
{
    match toml::from_str::<toml::Value>(s) {
        Ok(v) => Ok(from_toml_value(v)),
        Err(e) => Err(e.to_string()),
    }
}

/// The first entry of `es`, at position `i` or after, whose key reads `k`.
pub open spec fn table_find_from(
    es: Seq<(String, TomlValue)>,
    k: Seq<char>,
    i: int,
) -> Option<(String, TomlValue)>
    decreases es.len() - i,
{
    if i < 0 || i >= es.len() {
        None
    } else if es[i].0@ == k {
        Some(es[i])
    } else {
        table_find_from(es, k, i + 1)
    }
}

/// The first entry of `es` whose key reads `k`.
pub open spec fn table_find(es: Seq<(String, TomlValue)>, k: Seq<char>) -> Option<
    (String, TomlValue),
> {
    table_find_from(es, k, 0)
}

fn table_get_from<'a>(
    es: &'a Vec<(String, TomlValue)>,
    k: &str,
    i: usize,
) -> (r: Option<&'a (String, TomlValue)>)
    requires
        i <= es.len(),
    ensures
        match r {
            Some(p) => table_find_from(es@, k@, i as int) == Some(*p),
            None => table_find_from(es@, k@, i as int) is None,
        },
    decreases es.len() - i,
{
    if i == es.len() {
        None
    } else {
        let p = &es[i];
        if str_eq(p.0.as_str(), k) {
            Some(p)
        } else {
            table_get_from(es, k, i + 1)
        }
    }
}

/// Looks a key up in a table's entry list; the first match wins.
pub fn table_get<'a>(es: &'a Vec<(String, TomlValue)>, k: &str) -> (r: Option<
    &'a (String, TomlValue),
>)
    ensures
        match r {
            Some(p) => table_find(es@, k@) == Some(*p),
            None => table_find(es@, k@) is None,
        },
{
    table_get_from(es, k, 0)
}

} // verus!
