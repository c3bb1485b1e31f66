//! Parsing TOML text: the library's one call into an outside crate.

use vstd::prelude::*;
use crate::toml_value::{wf_toml, TomlData, TomlValue};

verus! {

#[verifier::external_type_specification]
#[verifier::external_body]
pub struct ExTomlCrateValue(toml::Value);

/// The document a TOML text denotes, if the text is well-formed TOML. The
/// result is named, not written out: stating it exactly would restate the
/// whole TOML grammar, and it depends on the text alone.
pub uninterp spec fn parsed_toml(text: Seq<char>) -> Option<TomlData>;

/// Relies on `str::parse::<toml::Value>` of the toml crate: whether a text
/// parses, and the document it denotes, depend on the text alone, and TOML
/// never puts two values under one key, so every table of the result has
/// distinct keys. The result is usually a table, but not always — the
/// crate reserves one private key under which a document parses to a bare
/// datetime — so nothing is claimed of its shape; shape validation rejects
/// any non-table document downstream.
#[verifier::external_body]
pub(crate) fn parse_toml_text(text: &str) -> (r: Option<TomlValue>)
    ensures
        r matches Some(v) ==> parsed_toml(text@) == Some(v@) && wf_toml(v@),
        r is None ==> parsed_toml(text@) is None,
{
    match text.parse::<toml::Value>() {
        Ok(v) => Some(own_value(v)),
        Err(_) => None,
    }
}

/// Carries a `toml::Value` into the library's own representation, variant by
/// variant. Floats and datetimes, which plugin definitions do not use, are
/// carried as their textual rendering.
#[verifier::external_body]
fn own_value(v: toml::Value) -> TomlValue {
    match v {
        toml::Value::String(s) => TomlValue::Str(s),
        toml::Value::Integer(n) => TomlValue::Int(n),
        toml::Value::Float(x) => TomlValue::Str(x.to_string()),
        toml::Value::Boolean(b) => TomlValue::Bool(b),
        toml::Value::Datetime(d) => TomlValue::Str(d.to_string()),
        toml::Value::Array(items) => TomlValue::Array(
            items.into_iter().map(own_value).collect(),
        ),
        toml::Value::Table(t) => TomlValue::Table(
            t.into_iter().map(|kv| (kv.0, own_value(kv.1))).collect(),
        ),
    }
}

} // verus!
