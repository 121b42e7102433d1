//! The decoded document value: a closed union over the native trees of the
//! underlying serialization crates, tagged with the format family it was
//! parsed as. The trees themselves are opaque here; the library reads only
//! their top-level shape, through the named predicates below.

use vstd::prelude::*;

verus! {

#[verifier::external_type_specification]
#[verifier::external_body]
pub struct ExJsonValue(serde_json::Value);

#[verifier::external_type_specification]
#[verifier::external_body]
pub struct ExYamlValue(serde_yaml::Value);

#[verifier::external_type_specification]
#[verifier::external_body]
pub struct ExTomlValue(toml::Value);

/// A decoded document. Exactly one variant is populated per run; JSON and
/// XML share the JSON-like tree, which is also the canonical shape XML is
/// folded into.
pub enum Document {
    Json(serde_json::Value),
    Yaml(serde_yaml::Value),
    Toml(toml::Value),
    Xml(serde_json::Value),
}

/// What `serde_json::Value::is_object` returns for a JSON tree.
pub uninterp spec fn json_is_object(v: serde_json::Value) -> bool;

/// What `serde_yaml::Value::is_mapping` returns for a YAML tree.
pub uninterp spec fn yaml_is_mapping(v: serde_yaml::Value) -> bool;

/// What `toml::Value::is_table` returns for a TOML tree.
pub uninterp spec fn toml_is_table(v: toml::Value) -> bool;

pub assume_specification[ serde_json::Value::is_object ](v: &serde_json::Value) -> (r: bool)
    ensures
        r == json_is_object(*v),
;

pub assume_specification[ serde_yaml::Value::is_mapping ](v: &serde_yaml::Value) -> (r: bool)
    ensures
        r == yaml_is_mapping(*v),
;

pub assume_specification[ toml::Value::is_table ](v: &toml::Value) -> (r: bool)
    ensures
        r == toml_is_table(*v),
;

impl Document {
    /// Whether the top level of the document is a mapping (a JSON object, a
    /// YAML mapping, or a TOML table). TOML and XML can only represent a
    /// document whose top level is one.
    pub open spec fn spec_is_mapping(self) -> bool {
        match self {
            Document::Json(j) => json_is_object(j),
            Document::Xml(j) => json_is_object(j),
            Document::Yaml(y) => yaml_is_mapping(y),
            Document::Toml(t) => toml_is_table(t),
        }
    }

    /// Tests whether the top level of the document is a mapping.
    pub fn is_mapping(&self) -> (r: bool)
        ensures
            r == self.spec_is_mapping(),
    {
        match self {
            Document::Json(j) => j.is_object(),
            Document::Xml(j) => j.is_object(),
            Document::Yaml(y) => y.is_mapping(),
            Document::Toml(t) => t.is_table(),
        }
    }
}

} // verus!
