use bson::{Bson, Document};
use extension_sdk_mongodb::e2e_param::{
    e2e_eof, e2e_param_from_options, e2e_transform, merge_yaml_field, DEFAULT_E2E_EXTENSION_PARAM, E2E_PARAM_FIELD,
};

#[test]
fn options_absent_empty_or_not_utf8_resolve_to_default() {
    assert_eq!(e2e_param_from_options(None), DEFAULT_E2E_EXTENSION_PARAM);
    assert_eq!(e2e_param_from_options(Some(b"")), DEFAULT_E2E_EXTENSION_PARAM);
    assert_eq!(e2e_param_from_options(Some(&[0xff, 0xfe, 0x41])), DEFAULT_E2E_EXTENSION_PARAM);
}

#[test]
fn options_yaml_and_json_resolve() {
    assert_eq!(
        e2e_param_from_options(Some(b"sharedLibraryPath: /x.so\ne2eExtensionParam: from_conf\n")),
        "from_conf"
    );
    assert_eq!(
        e2e_param_from_options(Some(br#"{"e2eExtensionParam":"json_param"}"#)),
        "json_param"
    );
}

#[test]
fn transform_sets_param_field_last_and_keeps_row() {
    let mut row = Document::new();
    row.insert("_id", 1i32);
    row.insert("n", "a");
    let out = e2e_transform(&row, &Document::new(), Some("p1")).unwrap();
    assert_eq!(out.get_i32("_id").unwrap(), 1);
    assert_eq!(out.get_str("n").unwrap(), "a");
    assert_eq!(out.get_str(E2E_PARAM_FIELD).unwrap(), "p1");
    let keys: Vec<&String> = out.keys().collect();
    assert_eq!(keys, vec!["_id", "n", "rustSdkE2eExtensionParam"]);
}

#[test]
fn transform_without_param_stores_null() {
    let row = Document::new();
    let out = e2e_transform(&row, &Document::new(), None).unwrap();
    assert_eq!(out.get(E2E_PARAM_FIELD), Some(&Bson::Null));
}

#[test]
fn eof_row_holds_only_the_param() {
    let out = e2e_eof(&Document::new(), Some("v")).unwrap();
    assert_eq!(out.len(), 1);
    assert_eq!(out.get_str("rustSdkE2eExtensionParam").unwrap(), "v");
}

#[test]
fn merge_overwrites_existing_field_in_place() {
    let mut d = Document::new();
    d.insert("rustSdkE2eExtensionParam", "old");
    d.insert("z", 2i32);
    merge_yaml_field(&mut d, Some("new"));
    let keys: Vec<&String> = d.keys().collect();
    assert_eq!(keys, vec!["rustSdkE2eExtensionParam", "z"]);
    assert_eq!(d.get_str("rustSdkE2eExtensionParam").unwrap(), "new");
}
