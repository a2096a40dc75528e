use extension_sdk_mongodb::byte_buf;
use extension_sdk_mongodb::status;
use extension_sdk_mongodb::sys::{MongoExtensionAPIVersion, MongoExtensionAPIVersionVector};
use extension_sdk_mongodb::version::{host_supports_extension, EXTENSION_API_VERSION};

fn v(major: u32, minor: u32) -> MongoExtensionAPIVersion {
    MongoExtensionAPIVersion { major, minor }
}

#[test]
fn own_version_is_supported() {
    let hv = MongoExtensionAPIVersionVector { versions: vec![v(7, 0), EXTENSION_API_VERSION()] };
    assert!(host_supports_extension(&hv, EXTENSION_API_VERSION()));
}

#[test]
fn extra_slots_keep_support() {
    let base = MongoExtensionAPIVersionVector { versions: vec![v(0, 3)] };
    assert!(host_supports_extension(&base, v(0, 1)));
    let more = MongoExtensionAPIVersionVector { versions: vec![v(9, 9), v(0, 3), v(1, 0)] };
    assert!(host_supports_extension(&more, v(0, 1)));
}

#[test]
fn older_minors_are_supported_newer_are_not() {
    let hv = MongoExtensionAPIVersionVector { versions: vec![v(0, 2)] };
    assert!(host_supports_extension(&hv, v(0, 2)));
    assert!(host_supports_extension(&hv, v(0, 0)));
    assert!(!host_supports_extension(&hv, v(0, 3)));
    assert!(!host_supports_extension(&hv, v(1, 0)));
}

#[test]
fn plain_reason_is_kept_and_nul_reason_replaced() {
    let s = status::new_error_status(-7, "plain");
    assert_eq!(s.get_code(), -7);
    assert_eq!(s.get_reason(), "plain");
    let t = status::new_error_status(2, "a\0b");
    assert_eq!(t.get_reason(), "extension error");
    assert!(!t.get_reason().contains('\0'));
}

#[test]
fn from_bson_view_decodes_to_the_same_document() {
    let mut d = bson::Document::new();
    d.insert("v", 5i32);
    d.insert("s", "txt");
    let mut inner = bson::Document::new();
    inner.insert("a", true);
    d.insert("outer", inner);
    let buf = byte_buf::from_bson(&d).expect("encode");
    let back = bson::Document::from_reader(buf.get_view()).expect("decode");
    assert_eq!(back, d);
}

#[test]
fn from_bson_encodes_arrays_and_other_types_and_round_trips() {
    let mut d = bson::Document::new();
    d.insert("arr", bson::Bson::Array(vec![bson::Bson::Int32(1), bson::Bson::String("x".into())]));
    d.insert("oid", bson::oid::ObjectId::new());
    d.insert("when", bson::DateTime::from_millis(5));
    let buf = byte_buf::from_bson(&d).expect("encode");
    assert_eq!(bson::Document::from_reader(buf.get_view()).expect("decode"), d);
    let mut bad = bson::Document::new();
    bad.insert("a\0b", 1i32);
    assert!(byte_buf::from_bson(&bad).is_err());
}
