//! Decoding raw text into a [`Document`] and encoding a [`Document`] for a
//! target format.
//!
//! The format grammars belong to the underlying crates; each parser and
//! emitter stands behind a trusted wrapper whose result is named by an
//! uninterpreted function of the input, since the text of a whole grammar
//! cannot reasonably be restated here. The dispatch, the TOML top-level
//! check and the XML root-tag post-processing are verified.

use vstd::prelude::*;
use serde::Serialize;
use crate::errors::ConvError;
use crate::formats::Format;
use crate::strip::{has_marker, strip_markers, strip_spec};
use crate::value::Document;

verus! {

/// What `serde_json::from_str` makes of the text: the parsed tree, or
/// nothing when the text is not well-formed JSON.
pub uninterp spec fn json_parse(text: Seq<char>) -> Option<serde_json::Value>;

/// What `serde_yaml::from_str` makes of the text.
pub uninterp spec fn yaml_parse(text: Seq<char>) -> Option<serde_yaml::Value>;

/// What `toml::from_str` makes of the text.
pub uninterp spec fn toml_parse(text: Seq<char>) -> Option<toml::Value>;

/// What `quickxml_to_serde::xml_str_to_json` makes of the text under this
/// library's fixed folding policy: repeated sibling tags become an array,
/// leaf text becomes the value (under the reserved key `text` when the
/// element also has children), and an empty element becomes an empty object.
pub uninterp spec fn xml_parse(text: Seq<char>) -> Option<serde_json::Value>;

/// Relies on serde_json::from_str: parsing is a function of the text alone.
#[verifier::external_body]
fn parse_json(text: &str) -> (r: Option<serde_json::Value>)
    ensures
        r == json_parse(text@),
{
    serde_json::from_str(text).ok()
}

/// Relies on serde_yaml::from_str: parsing is a function of the text alone.
#[verifier::external_body]
fn parse_yaml(text: &str) -> (r: Option<serde_yaml::Value>)
    ensures
        r == yaml_parse(text@),
{
    serde_yaml::from_str(text).ok()
}

/// Relies on toml::from_str: parsing is a function of the text alone.
#[verifier::external_body]
fn parse_toml(text: &str) -> (r: Option<toml::Value>)
    ensures
        r == toml_parse(text@),
{
    toml::from_str(text).ok()
}

/// Relies on quickxml_to_serde::xml_str_to_json, with the fixed folding
/// policy of [`xml_parse`]: no leading-zero quirk, no attribute prefix,
/// reserved text key `text`, empty elements as empty objects.
#[verifier::external_body]
fn parse_xml(text: &str) -> (r: Option<serde_json::Value>)
    ensures
        r == xml_parse(text@),
{
    let config = quickxml_to_serde::Config::new_with_custom_values(
        false,
        "",
        "text",
        quickxml_to_serde::NullValue::EmptyObject,
    );
    quickxml_to_serde::xml_str_to_json(text, &config).ok()
}

/// What compact JSON encoding (`serde_json::to_string`) makes of the
/// document, or nothing when the tree cannot be written as JSON.
pub uninterp spec fn json_compact_text(v: Document) -> Option<Seq<char>>;

/// What pretty JSON encoding (`serde_json::Serializer` with four-space
/// indentation) makes of the document.
pub uninterp spec fn json_pretty_text(v: Document) -> Option<Seq<char>>;

/// What YAML encoding (`serde_yaml::to_string`) makes of the document.
pub uninterp spec fn yaml_text(v: Document) -> Option<Seq<char>>;

/// What compact TOML encoding (`toml::to_string`) makes of the document.
pub uninterp spec fn toml_compact_text(v: Document) -> Option<Seq<char>>;

/// What pretty TOML encoding (`toml::to_string_pretty`) makes of the
/// document.
pub uninterp spec fn toml_pretty_text(v: Document) -> Option<Seq<char>>;

/// What XML encoding (`quick_xml::se::Serializer`) makes of the document
/// under the given root tag, four-space indented when `indent` is set.
pub uninterp spec fn xml_text(v: Document, root: Seq<char>, indent: bool) -> Option<Seq<char>>;

/// Relies on serde_json::to_string: the text depends on the document alone.
#[verifier::external_body]
fn emit_json_compact(v: &Document) -> (r: Option<Vec<char>>)
    ensures
        (r is Some) == (json_compact_text(*v) is Some),
        r is Some ==> r.unwrap()@ == json_compact_text(*v).unwrap(),
{
    let s = match v {
        Document::Json(j) | Document::Xml(j) => serde_json::to_string(j).ok(),
        Document::Yaml(y) => serde_json::to_string(y).ok(),
        Document::Toml(t) => serde_json::to_string(t).ok(),
    };
    s.map(|s| s.chars().collect())
}

/// Relies on serde_json::Serializer with a four-space PrettyFormatter: the
/// text depends on the document alone.
#[verifier::external_body]
fn emit_json_pretty(v: &Document) -> (r: Option<Vec<char>>)
    ensures
        (r is Some) == (json_pretty_text(*v) is Some),
        r is Some ==> r.unwrap()@ == json_pretty_text(*v).unwrap(),
{
    let mut buf: Vec<u8> = Vec::new();
    let fmt = serde_json::ser::PrettyFormatter::with_indent(b"    ");
    let mut ser = serde_json::Serializer::with_formatter(&mut buf, fmt);
    let ok = match v {
        Document::Json(j) | Document::Xml(j) => j.serialize(&mut ser).is_ok(),
        Document::Yaml(y) => y.serialize(&mut ser).is_ok(),
        Document::Toml(t) => t.serialize(&mut ser).is_ok(),
    };
    if ok { String::from_utf8(buf).ok().map(|s| s.chars().collect()) } else { None }
}

/// Relies on serde_yaml::to_string: the text depends on the document alone.
#[verifier::external_body]
fn emit_yaml(v: &Document) -> (r: Option<Vec<char>>)
    ensures
        (r is Some) == (yaml_text(*v) is Some),
        r is Some ==> r.unwrap()@ == yaml_text(*v).unwrap(),
{
    let s = match v {
        Document::Json(j) | Document::Xml(j) => serde_yaml::to_string(j).ok(),
        Document::Yaml(y) => serde_yaml::to_string(y).ok(),
        Document::Toml(t) => serde_yaml::to_string(t).ok(),
    };
    s.map(|s| s.chars().collect())
}

/// Relies on toml::to_string: the text depends on the document alone.
#[verifier::external_body]
fn emit_toml_compact(v: &Document) -> (r: Option<Vec<char>>)
    ensures
        (r is Some) == (toml_compact_text(*v) is Some),
        r is Some ==> r.unwrap()@ == toml_compact_text(*v).unwrap(),
{
    let s = match v {
        Document::Json(j) | Document::Xml(j) => toml::to_string(j).ok(),
        Document::Yaml(y) => toml::to_string(y).ok(),
        Document::Toml(t) => toml::to_string(t).ok(),
    };
    s.map(|s| s.chars().collect())
}

/// Relies on toml::to_string_pretty: the text depends on the document alone.
#[verifier::external_body]
fn emit_toml_pretty(v: &Document) -> (r: Option<Vec<char>>)
    ensures
        (r is Some) == (toml_pretty_text(*v) is Some),
        r is Some ==> r.unwrap()@ == toml_pretty_text(*v).unwrap(),
{
    let s = match v {
        Document::Json(j) | Document::Xml(j) => toml::to_string_pretty(j).ok(),
        Document::Yaml(y) => toml::to_string_pretty(y).ok(),
        Document::Toml(t) => toml::to_string_pretty(t).ok(),
    };
    s.map(|s| s.chars().collect())
}

/// Relies on quick_xml::se::Serializer::with_root: the text depends on the
/// document, the root tag and the indentation choice alone.
#[verifier::external_body]
fn emit_xml(v: &Document, root: &str, indent: bool) -> (r: Option<Vec<char>>)
    ensures
        (r is Some) == (xml_text(*v, root@, indent) is Some),
        r is Some ==> r.unwrap()@ == xml_text(*v, root@, indent).unwrap(),
{
    let mut buf = String::new();
    let mut ser = quick_xml::se::Serializer::with_root(&mut buf, Some(root)).ok()?;
    if indent {
        ser.indent(' ', 4);
    }
    let ok = match v {
        Document::Json(j) | Document::Xml(j) => j.serialize(ser).is_ok(),
        Document::Yaml(y) => y.serialize(ser).is_ok(),
        Document::Toml(t) => t.serialize(ser).is_ok(),
    };
    if ok { Some(buf.chars().collect()) } else { None }
}

/// What decoding returns: the document of the format's parser, or the
/// format's `Invalid` error exactly when the parser rejects the text.
pub open spec fn spec_decode(format: Format, text: Seq<char>) -> Result<Document, ConvError> {
    match format {
        Format::Json => match json_parse(text) {
            Some(v) => Ok(Document::Json(v)),
            None => Err(ConvError::Invalid(Format::Json)),
        },
        Format::Yaml => match yaml_parse(text) {
            Some(v) => Ok(Document::Yaml(v)),
            None => Err(ConvError::Invalid(Format::Yaml)),
        },
        Format::Toml => match toml_parse(text) {
            Some(v) => Ok(Document::Toml(v)),
            None => Err(ConvError::Invalid(Format::Toml)),
        },
        Format::Xml => match xml_parse(text) {
            Some(v) => Ok(Document::Xml(v)),
            None => Err(ConvError::Invalid(Format::Xml)),
        },
    }
}

/// Decodes `text` as a document of `format`.
pub fn decode(format: Format, text: &str) -> (r: Result<Document, ConvError>)
    ensures
        r == spec_decode(format, text@),
{
    match format {
        Format::Json => match parse_json(text) {
            Some(v) => Ok(Document::Json(v)),
            None => Err(ConvError::Invalid(Format::Json)),
        },
        Format::Yaml => match parse_yaml(text) {
            Some(v) => Ok(Document::Yaml(v)),
            None => Err(ConvError::Invalid(Format::Yaml)),
        },
        Format::Toml => match parse_toml(text) {
            Some(v) => Ok(Document::Toml(v)),
            None => Err(ConvError::Invalid(Format::Toml)),
        },
        Format::Xml => match parse_xml(text) {
            Some(v) => Ok(Document::Xml(v)),
            None => Err(ConvError::Invalid(Format::Xml)),
        },
    }
}

/// The view of an optional root-tag string.
pub open spec fn view_root(root: Option<&str>) -> Option<Seq<char>> {
    match root {
        Some(r) => Some(r@),
        None => None,
    }
}

/// The view of an encoding result.
pub open spec fn res_view(r: Result<Vec<char>, ConvError>) -> Result<Seq<char>, ConvError> {
    match r {
        Ok(s) => Ok(s@),
        Err(e) => Err(e),
    }
}

/// What encoding returns. JSON honours the compact flag; YAML has no
/// compact variant, so the flag has no effect there; TOML requires a
/// mapping at the top level; XML serializes under the given root tag, or
/// under the empty tag whose markers are then stripped from the text.
pub open spec fn spec_encode(
    format: Format,
    v: Document,
    compact: bool,
    root: Option<Seq<char>>,
) -> Result<Seq<char>, ConvError> {
    match format {
        Format::Json => match (if compact {
            json_compact_text(v)
        } else {
            json_pretty_text(v)
        }) {
            Some(s) => Ok(s),
            None => Err(ConvError::Unrepresentable),
        },
        Format::Yaml => match yaml_text(v) {
            Some(s) => Ok(s),
            None => Err(ConvError::Unrepresentable),
        },
        Format::Toml => if !v.spec_is_mapping() {
            Err(ConvError::Unrepresentable)
        } else {
            match (if compact {
                toml_compact_text(v)
            } else {
                toml_pretty_text(v)
            }) {
                Some(s) => Ok(s),
                None => Err(ConvError::Unrepresentable),
            }
        },
        Format::Xml => match xml_text(
            v,
            match root {
                Some(r) => r,
                None => ""@,
            },
            !compact,
        ) {
            Some(s) => Ok(
                match root {
                    Some(_) => s,
                    None => strip_spec(s),
                },
            ),
            None => Err(ConvError::Unrepresentable),
        },
    }
}

/// Encodes the document for `format`. `compact` selects the
/// whitespace-free JSON, TOML and XML variants; `root` names the XML root
/// element.
pub fn encode(format: Format, v: &Document, compact: bool, root: Option<&str>) -> (r: Result<
    Vec<char>,
    ConvError,
>)
    ensures
        res_view(r) == spec_encode(format, *v, compact, view_root(root)),
        format == Format::Toml && !v.spec_is_mapping() ==> r == Err::<Vec<char>, ConvError>(
            ConvError::Unrepresentable,
        ),
        format == Format::Xml && root is None && r is Ok ==> !has_marker(r.unwrap()@),
{
    match format {
        Format::Json => {
            let t = if compact {
                emit_json_compact(v)
            } else {
                emit_json_pretty(v)
            };
            match t {
                Some(s) => Ok(s),
                None => Err(ConvError::Unrepresentable),
            }
        },
        Format::Yaml => match emit_yaml(v) {
            Some(s) => Ok(s),
            None => Err(ConvError::Unrepresentable),
        },
        Format::Toml => {
            if !v.is_mapping() {
                return Err(ConvError::Unrepresentable);
            }
            let t = if compact {
                emit_toml_compact(v)
            } else {
                emit_toml_pretty(v)
            };
            match t {
                Some(s) => Ok(s),
                None => Err(ConvError::Unrepresentable),
            }
        },
        Format::Xml => {
            let rt = match root {
                Some(r) => r,
                None => "",
            };
            match emit_xml(v, rt, !compact) {
                Some(s) => match root {
                    Some(_) => Ok(s),
                    None => Ok(strip_markers(s.as_slice())),
                },
                None => Err(ConvError::Unrepresentable),
            }
        },
    }
}

/// What a whole conversion returns: the decode error when the input is
/// rejected, else the encoding of the decoded document.
pub open spec fn spec_convert(
    from: Format,
    to: Format,
    text: Seq<char>,
    compact: bool,
    root: Option<Seq<char>>,
) -> Result<Seq<char>, ConvError> {
    match spec_decode(from, text) {
        Err(e) => Err(e),
        Ok(v) => spec_encode(to, v, compact, root),
    }
}

/// Decodes `text` as `from` and encodes the document as `to`.
pub fn convert(from: Format, to: Format, text: &str, compact: bool, root: Option<&str>) -> (r:
    Result<Vec<char>, ConvError>)
    ensures
        res_view(r) == spec_convert(from, to, text@, compact, view_root(root)),
{
    match decode(from, text) {
        Err(e) => Err(e),
        Ok(v) => encode(to, &v, compact, root),
    }
}

/// Encoding to TOML fails as unrepresentable whenever the top level of the
/// document is not a mapping, whatever the options say; no data is ever
/// silently dropped.
pub proof fn law_toml_requires_mapping(v: Document, compact: bool, root: Option<Seq<char>>)
    ensures
        !v.spec_is_mapping() ==> spec_encode(Format::Toml, v, compact, root) == Err::<
            Seq<char>,
            ConvError,
        >(ConvError::Unrepresentable),
{
}

/// The compact flag has no effect on YAML output.
pub proof fn law_yaml_ignores_compact(v: Document, root: Option<Seq<char>>)
    ensures
        spec_encode(Format::Yaml, v, true, root) == spec_encode(Format::Yaml, v, false, root),
{
}

/// When no root element is given, successful XML output contains no
/// literal `<>` or `</>` substring.
pub proof fn law_xml_default_root_clean(v: Document, compact: bool)
    ensures
        spec_encode(Format::Xml, v, compact, None) matches Ok(s) ==> !has_marker(s),
{
    if xml_text(v, ""@, !compact) is Some {
        crate::strip::lemma_strip_no_marker(xml_text(v, ""@, !compact).unwrap());
    }
}

} // verus!
