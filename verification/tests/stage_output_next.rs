use bson::{Bson, Document};
use extension_sdk_mongodb::stage_output::Next;

#[test]
fn next_advanced_carries_optional_metadata() {
    let mut document = Document::new();
    document.insert("x", 1i32);
    let mut meta = Document::new();
    meta.insert("score", Bson::Double(0.9));
    let n = Next::Advanced { document, metadata: Some(meta) };
    let Next::Advanced { document, metadata } = n else {
        panic!("expected Advanced");
    };
    assert_eq!(document.get_i32("x").ok(), Some(1));
    assert_eq!(metadata.as_ref().and_then(|m| m.get_f64("score").ok()), Some(0.9));
}

#[test]
fn next_advanced_allows_absent_metadata() {
    let mut document = Document::new();
    document.insert("a", "b");
    let n = Next::Advanced { document, metadata: None };
    assert!(matches!(n, Next::Advanced { metadata: None, .. }));
}

#[test]
fn next_eof_has_no_payload() {
    assert!(matches!(Next::Eof, Next::Eof));
}
