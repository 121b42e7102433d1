use convfmt::codec::convert;
use convfmt::errors::ConvError;
use convfmt::formats::Format;

fn conv(
    from: Format,
    to: Format,
    text: &str,
    compact: bool,
    root: Option<&str>,
) -> Result<String, ConvError> {
    convert(from, to, text, compact, root).map(|v| v.iter().collect())
}

#[test]
fn json_object_to_toml() {
    // A mapping at the top level is representable in TOML.
    let out = conv(Format::Json, Format::Toml, "{\"a\":1,\"b\":[1,2,3]}", true, None).unwrap();
    assert!(out.contains("a = 1"));
    assert!(out.contains("b = [1, 2, 3]"));
    assert!(toml::from_str::<toml::Value>(&out).is_ok());
}

#[test]
fn json_object_to_toml_pretty_is_valid() {
    let out = conv(Format::Json, Format::Toml, "{\"a\":1,\"b\":[1,2,3]}", false, None).unwrap();
    assert!(out.contains("a = 1"));
    assert!(toml::from_str::<toml::Value>(&out).is_ok());
}

#[test]
fn toml_to_toml_keeps_table() {
    assert_eq!(
        conv(Format::Toml, Format::Toml, "a = 1\n", true, None).unwrap(),
        "a = 1\n"
    );
}

#[test]
fn yaml_mapping_to_toml() {
    let out = conv(Format::Yaml, Format::Toml, "a: 1\n", true, None).unwrap();
    assert_eq!(out, "a = 1\n");
}

#[test]
fn json_array_to_toml_unrepresentable() {
    assert_eq!(
        conv(Format::Json, Format::Toml, "[1,2,3]", true, None),
        Err(ConvError::Unrepresentable)
    );
    assert_eq!(
        conv(Format::Json, Format::Toml, "[1,2,3]", false, None),
        Err(ConvError::Unrepresentable)
    );
}

#[test]
fn json_scalar_to_toml_unrepresentable() {
    assert_eq!(
        conv(Format::Json, Format::Toml, "null", true, None),
        Err(ConvError::Unrepresentable)
    );
    assert_eq!(
        conv(Format::Json, Format::Toml, "\"hi\"", false, None),
        Err(ConvError::Unrepresentable)
    );
}

#[test]
fn yaml_non_mapping_to_toml_unrepresentable() {
    assert_eq!(
        conv(Format::Yaml, Format::Toml, "- 1\n- 2\n", true, None),
        Err(ConvError::Unrepresentable)
    );
}

#[test]
fn json_to_yaml_round_trip_preserves_values() {
    // Keys and scalar values survive the YAML detour.
    let src = "{\"a\":1,\"b\":[1,2,3],\"c\":{\"d\":\"x\"},\"e\":true,\"f\":null}";
    let yaml = conv(Format::Json, Format::Yaml, src, false, None).unwrap();
    let back = conv(Format::Yaml, Format::Json, &yaml, true, None).unwrap();
    let orig: serde_json::Value = serde_json::from_str(src).unwrap();
    let round: serde_json::Value = serde_json::from_str(&back).unwrap();
    assert_eq!(orig, round);
}

#[test]
fn piped_json_to_yaml() {
    assert_eq!(
        conv(Format::Json, Format::Yaml, "{\"x\":\"y\"}", false, None).unwrap(),
        "x: y\n"
    );
}

#[test]
fn compact_json_has_no_whitespace() {
    let src = "{\"a\":1,\"b\":[1,2,3]}";
    let compact = conv(Format::Json, Format::Json, src, true, None).unwrap();
    let pretty = conv(Format::Json, Format::Json, src, false, None).unwrap();
    assert_eq!(compact, src);
    assert!(!compact.contains(' ') && !compact.contains('\n'));
    assert!(pretty.contains("\n    "));
    assert!(pretty.len() > compact.len());
}

#[test]
fn compact_flag_does_not_change_yaml() {
    let src = "{\"a\":1,\"b\":[1,2,3]}";
    let with_flag = conv(Format::Json, Format::Yaml, src, true, None).unwrap();
    let without = conv(Format::Json, Format::Yaml, src, false, None).unwrap();
    assert_eq!(with_flag, without);
}

#[test]
fn compact_xml_has_less_whitespace() {
    let src = "{\"a\":{\"b\":1}}";
    let compact = conv(Format::Json, Format::Xml, src, true, None).unwrap();
    let pretty = conv(Format::Json, Format::Xml, src, false, None).unwrap();
    assert!(!compact.contains('\n'));
    assert!(pretty.contains('\n'));
    assert!(pretty.len() > compact.len());
}

#[test]
fn empty_xml_element_decodes_to_empty_object() {
    let out = conv(Format::Xml, Format::Json, "<a></a>", true, None).unwrap();
    assert_eq!(out, "{\"a\":{}}");
    let self_closing = conv(Format::Xml, Format::Json, "<a/>", true, None).unwrap();
    assert_eq!(self_closing, "{\"a\":{}}");
}

#[test]
fn xml_repeated_tags_fold_to_array() {
    // Repeated sibling tags become one array; digit-only text becomes a
    // number under the fixed folding policy.
    let out = conv(
        Format::Xml,
        Format::Json,
        "<root><item>1</item><item>2</item></root>",
        true,
        None,
    )
    .unwrap();
    let parsed: serde_json::Value = serde_json::from_str(&out).unwrap();
    let expected: serde_json::Value =
        serde_json::from_str("{\"root\":{\"item\":[1,2]}}").unwrap();
    assert_eq!(parsed, expected);
}

#[test]
fn xml_without_root_has_no_empty_tags() {
    let out = conv(Format::Json, Format::Xml, "{\"x\":\"y\"}", true, None).unwrap();
    assert_eq!(out, "<x>y</x>");
    assert!(!out.contains("<>") && !out.contains("</>"));
    let pretty = conv(Format::Json, Format::Xml, "{\"x\":\"y\"}", false, None).unwrap();
    assert!(!pretty.contains("<>") && !pretty.contains("</>"));
}

#[test]
fn xml_with_root_keeps_it() {
    let out = conv(Format::Json, Format::Xml, "{\"x\":\"y\"}", true, Some("r")).unwrap();
    assert_eq!(out, "<r><x>y</x></r>");
}

#[test]
fn toml_to_json() {
    let out = conv(Format::Toml, Format::Json, "a = 1\nb = \"x\"\n", true, None).unwrap();
    assert_eq!(out, "{\"a\":1,\"b\":\"x\"}");
}

#[test]
fn yaml_to_json() {
    let out = conv(Format::Yaml, Format::Json, "x: y\n", true, None).unwrap();
    assert_eq!(out, "{\"x\":\"y\"}");
}

#[test]
fn invalid_inputs_name_their_format() {
    assert_eq!(
        conv(Format::Json, Format::Yaml, "{\"a\":", true, None),
        Err(ConvError::Invalid(Format::Json))
    );
    assert_eq!(
        conv(Format::Yaml, Format::Json, "x: [unclosed", true, None),
        Err(ConvError::Invalid(Format::Yaml))
    );
    assert_eq!(
        conv(Format::Toml, Format::Json, "= nonsense", true, None),
        Err(ConvError::Invalid(Format::Toml))
    );
    assert_eq!(
        conv(Format::Xml, Format::Json, "<a><b></a>", true, None),
        Err(ConvError::Invalid(Format::Xml))
    );
}
