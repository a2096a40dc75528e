use bson::{Bson, Document};
use extension_sdk_mongodb::error::ExtensionError;
use extension_sdk_mongodb::passthrough::StageGlobals;
use extension_sdk_mongodb::stage_parse::{named_stage_bytes, parse_stage_definition};

fn bytes_of(d: &Document) -> Vec<u8> {
    let mut v = Vec::new();
    d.to_writer(&mut v).unwrap();
    v
}

fn stage(name: &str, inner: Document) -> Document {
    let mut d = Document::new();
    d.insert(name, inner);
    d
}

#[test]
fn parse_keeps_argument_bytes() {
    let mut args = Document::new();
    args.insert("n", 10i32);
    let got = parse_stage_definition(&bytes_of(&stage("$fib", args.clone())), "$fib", false).unwrap();
    assert_eq!(got, bytes_of(&args));
}

#[test]
fn parse_rejects_other_stage_and_nonempty_args() {
    let e = parse_stage_definition(&bytes_of(&stage("$other", Document::new())), "$fib", false).unwrap_err();
    assert_eq!(e, ExtensionError::BadValue("expected stage $fib, got $other".into()));
    let mut args = Document::new();
    args.insert("n", 1i32);
    let e = parse_stage_definition(&bytes_of(&stage("$fib", args)), "$fib", true).unwrap_err();
    assert_eq!(e, ExtensionError::BadValue("stage definition must be an empty object".into()));
    let e = parse_stage_definition(&bytes_of(&Document::new()), "$fib", false).unwrap_err();
    assert_eq!(e, ExtensionError::BadValue("stage document must have one field".into()));
    let mut not_doc = Document::new();
    not_doc.insert("$fib", Bson::Int32(1));
    assert!(matches!(
        parse_stage_definition(&bytes_of(&not_doc), "$fib", false).unwrap_err(),
        ExtensionError::BadValue(_)
    ));
}

#[test]
fn parse_rejects_non_bson() {
    match parse_stage_definition(&[1, 2, 3], "$fib", false).unwrap_err() {
        ExtensionError::FailedToParse(m) => assert!(m.starts_with("parse bson: ")),
        other => panic!("unexpected {other:?}"),
    }
}

#[test]
fn stage_globals_parse_and_name() {
    let g = StageGlobals { name: "$pass", expect_empty: true };
    assert_eq!(g.name_bytes(), b"$pass");
    let got = g.parse_stage(&bytes_of(&stage("$pass", Document::new()))).unwrap();
    assert_eq!(got, bytes_of(&Document::new()));
}

#[test]
fn named_stage_bytes_wraps_arguments() {
    let mut args = Document::new();
    args.insert("k", 2i32);
    let out = named_stage_bytes("$s", &bytes_of(&args), None).unwrap();
    assert_eq!(out, bytes_of(&stage("$s", args)));
    let e = named_stage_bytes("$s", &[0, 1], Some("log bson")).unwrap_err();
    assert_eq!(e, ExtensionError::FailedToParse("log bson".into()));
}

#[test]
fn empty_argument_definition_parses_for_expect_empty_stage() {
    let got = parse_stage_definition(&bytes_of(&stage("$myRustPass", Document::new())), "$myRustPass", true).unwrap();
    assert_eq!(got, bytes_of(&Document::new()));
    let mut args = Document::new();
    args.insert("a", 1i32);
    let e = parse_stage_definition(&bytes_of(&stage("$myRustPass", args)), "$myRustPass", true).unwrap_err();
    assert_eq!(e, ExtensionError::BadValue("stage definition must be an empty object".into()));
}

#[test]
fn query_shape_of_parsed_arguments_is_the_stage_document() {
    let mut args = Document::new();
    args.insert("n", 3i64);
    let parsed = parse_stage_definition(&bytes_of(&stage("$s", args.clone())), "$s", false).unwrap();
    let shape = named_stage_bytes("$s", &parsed, None).unwrap();
    assert_eq!(Document::from_reader(&shape[..]).unwrap(), stage("$s", args));
}

#[test]
fn arguments_with_arrays_parse_and_shape_back() {
    let mut args = Document::new();
    args.insert("list", Bson::Array(vec![Bson::Int32(1), Bson::Int32(2)]));
    let parsed = parse_stage_definition(&bytes_of(&stage("$s", args.clone())), "$s", false).unwrap();
    assert_eq!(Document::from_reader(&parsed[..]).unwrap(), args);
    let shape = named_stage_bytes("$s", &parsed, None).unwrap();
    assert_eq!(Document::from_reader(&shape[..]).unwrap(), stage("$s", args));
}
