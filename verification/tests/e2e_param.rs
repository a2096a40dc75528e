use extension_sdk_mongodb::e2e_param::{
    parse_e2e_extension_param, parse_e2e_extension_param_json, resolve_e2e_extension_param,
};

#[test]
fn parses_param_line() {
    let yaml = "sharedLibraryPath: /x.so\ne2eExtensionParam: hello_world\n";
    assert_eq!(parse_e2e_extension_param(yaml).as_deref(), Some("hello_world"));
}

#[test]
fn ignores_unknown_lines() {
    assert_eq!(
        parse_e2e_extension_param("foo: bar\ne2eExtensionParam: z\n").as_deref(),
        Some("z")
    );
}

#[test]
fn missing_key() {
    assert_eq!(parse_e2e_extension_param("only: shared\n"), None);
}

#[test]
fn parses_param_json() {
    let j = r#"{"sharedLibraryPath":"/x.so","e2eExtensionParam":"json_value"}"#;
    assert_eq!(parse_e2e_extension_param_json(j).as_deref(), Some("json_value"));
}

#[test]
fn resolve_defaults_when_empty_or_unparsed() {
    assert_eq!(resolve_e2e_extension_param(None), "from_extension_yaml");
    assert_eq!(resolve_e2e_extension_param(Some("")), "from_extension_yaml");
    assert_eq!(
        resolve_e2e_extension_param(Some("only: shared\n")),
        "from_extension_yaml"
    );
}

#[test]
fn resolve_prefers_yaml_then_json() {
    assert_eq!(
        resolve_e2e_extension_param(Some("e2eExtensionParam: from_yaml\n")),
        "from_yaml"
    );
    assert_eq!(
        resolve_e2e_extension_param(Some(r#"{"e2eExtensionParam":"from_json"}"#)),
        "from_json"
    );
}

#[test]
fn param_line_trims_quotes_and_crlf() {
    let yaml = "# comment\r\n  e2eExtensionParam:   \"quoted\"  \r\nnext: 1";
    assert_eq!(parse_e2e_extension_param(yaml).as_deref(), Some("quoted"));
    assert_eq!(
        parse_e2e_extension_param("e2eExtensionParam: 'single'").as_deref(),
        Some("single")
    );
}

#[test]
fn param_line_with_empty_value_is_skipped() {
    let yaml = "e2eExtensionParam: \"\"\ne2eExtensionParam: second\n";
    assert_eq!(parse_e2e_extension_param(yaml).as_deref(), Some("second"));
    assert_eq!(parse_e2e_extension_param("e2eExtensionParam:"), None);
}

#[test]
fn commented_param_line_is_ignored() {
    assert_eq!(parse_e2e_extension_param("#e2eExtensionParam: x\n"), None);
    assert_eq!(parse_e2e_extension_param(""), None);
}

#[test]
fn resolve_drops_byte_order_mark_and_white_space() {
    assert_eq!(
        resolve_e2e_extension_param(Some("\u{feff}  e2eExtensionParam: bom\n  ")),
        "bom"
    );
    assert_eq!(resolve_e2e_extension_param(Some(" \t\n ")), "from_extension_yaml");
}

#[test]
fn json_param_must_be_nonempty_string() {
    assert_eq!(parse_e2e_extension_param_json(r#"{"e2eExtensionParam":""}"#), None);
    assert_eq!(parse_e2e_extension_param_json(r#"{"e2eExtensionParam":7}"#), None);
    assert_eq!(parse_e2e_extension_param_json("not json"), None);
    assert_eq!(parse_e2e_extension_param_json("{not json"), None);
}
