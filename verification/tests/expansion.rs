use bson::{Bson, Document};
use extension_sdk_mongodb::error::ExtensionError;
use extension_sdk_mongodb::expansion::Expansion;

fn stage(name: &str, inner: Document) -> Document {
    let mut d = Document::new();
    d.insert(name, inner);
    d
}

fn one(k: &str, v: i32) -> Document {
    let mut d = Document::new();
    d.insert(k, v);
    d
}

#[test]
fn pipeline_stage_arg_blobs_two_stages() {
    let blobs = Expansion::pipeline_stage_arg_blobs(
        "$x",
        &[stage("$x", one("a", 1)), stage("$x", one("b", 2))],
    )
    .unwrap();
    assert_eq!(blobs.len(), 2);
    assert_ne!(blobs[0], blobs[1]);
}

#[test]
fn plain_stage_blobs_are_the_inner_bson() {
    let blobs = Expansion::pipeline_stage_arg_blobs(
        "$x",
        &[stage("$x", one("a", 1)), stage("$x", one("b", 2))],
    )
    .unwrap();
    assert_eq!(blobs, vec![vec![12, 0, 0, 0, 16, 97, 0, 1, 0, 0, 0, 0], vec![12, 0, 0, 0, 16, 98, 0, 2, 0, 0, 0, 0]]);
}

#[test]
fn pipeline_stage_arg_blobs_rejects_wrong_operator() {
    let e = Expansion::pipeline_stage_arg_blobs("$x", &[stage("$y", Document::new())]).unwrap_err();
    assert!(matches!(e, ExtensionError::BadValue(_)));
}

#[test]
fn pipeline_stage_arg_blobs_rejects_empty_pipeline() {
    let e = Expansion::pipeline_stage_arg_blobs("$x", &[]).unwrap_err();
    assert!(matches!(e, ExtensionError::BadValue(_)));
}

#[test]
fn pipeline_blob_is_inner_document_encoding() {
    let inner = one("a", 1);
    let blobs = Expansion::pipeline_stage_arg_blobs("$x", &[stage("$x", inner.clone())]).unwrap();
    let mut expected = Vec::new();
    inner.to_writer(&mut expected).unwrap();
    assert_eq!(blobs[0], expected);
}

#[test]
fn pipeline_stage_arg_blobs_error_messages() {
    assert_eq!(
        Expansion::pipeline_stage_arg_blobs("$x", &[Document::new()]).unwrap_err(),
        ExtensionError::BadValue("empty stage document".into())
    );
    let mut two = stage("$x", Document::new());
    two.insert("extra", 1i32);
    assert_eq!(
        Expansion::pipeline_stage_arg_blobs("$x", &[two]).unwrap_err(),
        ExtensionError::BadValue("stage document must have exactly one field".into())
    );
    assert_eq!(
        Expansion::pipeline_stage_arg_blobs("$x", &[stage("$x", Document::new()), stage("$y", Document::new())])
            .unwrap_err(),
        ExtensionError::BadValue("expanded pipeline stages must use operator $x, got $y".into())
    );
    let mut not_doc = Document::new();
    not_doc.insert("$x", Bson::Int32(3));
    assert!(matches!(
        Expansion::pipeline_stage_arg_blobs("$x", &[not_doc]).unwrap_err(),
        ExtensionError::BadValue(_)
    ));
}
