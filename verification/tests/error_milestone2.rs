use extension_sdk_mongodb::error::ExtensionError;
use extension_sdk_mongodb::lifecycle::{plain_error_status, registration_outcome, status_from_result};
use extension_sdk_mongodb::status;
use extension_sdk_mongodb::sys::{MONGO_EXTENSION_STATUS_OK, MONGO_EXTENSION_STATUS_RUNTIME_ERROR};

#[test]
fn extension_error_bad_value_display() {
    let e = ExtensionError::BadValue("bad".into());
    assert!(e.to_string().contains("bad"));
}

#[test]
fn into_raw_status_host_error_preserves_code() {
    let e = ExtensionError::HostError {
        code: 7,
        reason: "from host".into(),
    };
    let p = e.into_raw_status();
    assert_eq!(p.get_code(), 7);
    let s = p.get_reason();
    assert!(s.contains("from host"));
}

#[test]
fn into_raw_status_runtime_uses_default_code() {
    let e = ExtensionError::Runtime("boom".into());
    let p = e.into_raw_status();
    assert_eq!(p.get_code(), MONGO_EXTENSION_STATUS_RUNTIME_ERROR);
}

#[test]
fn into_raw_status_bad_value_uses_runtime_code() {
    let e = ExtensionError::BadValue("nope".into());
    let p = e.into_raw_status();
    assert_eq!(p.get_code(), MONGO_EXTENSION_STATUS_RUNTIME_ERROR);
    let s = p.get_reason();
    assert!(s.contains("bad value"));
}

#[test]
fn into_raw_status_failed_to_parse_reason_prefix() {
    let e = ExtensionError::FailedToParse("not bson".into());
    let p = e.into_raw_status();
    let s = p.get_reason();
    assert!(s.contains("failed to parse"));
}

#[test]
fn status_ok_singleton_still_ok() {
    let p = status::status_ok();
    assert_eq!(p.get_code(), MONGO_EXTENSION_STATUS_OK);
}

#[test]
fn status_reason_of_each_variant() {
    assert_eq!(ExtensionError::BadValue("x".into()).status_reason(), "bad value: x");
    assert_eq!(ExtensionError::FailedToParse("y".into()).status_reason(), "failed to parse: y");
    assert_eq!(ExtensionError::Runtime("z".into()).status_reason(), "z");
    let h = ExtensionError::HostError { code: -4, reason: "w".into() };
    assert_eq!(h.status_reason(), "w");
    assert_eq!(h.status_code(), -4);
    assert_eq!(h.to_string(), "w");
}

#[test]
fn registration_outcomes() {
    assert!(registration_outcome(Some(MONGO_EXTENSION_STATUS_OK)).is_ok());
    assert_eq!(
        registration_outcome(Some(3)),
        Err(ExtensionError::Runtime("register_stage_descriptor failed".into()))
    );
    assert_eq!(
        registration_outcome(None),
        Err(ExtensionError::Runtime("null status from register_stage_descriptor".into()))
    );
    let st = status_from_result(registration_outcome(Some(1)));
    assert_eq!(st.get_code(), MONGO_EXTENSION_STATUS_RUNTIME_ERROR);
    assert_eq!(st.get_reason(), "register_stage_descriptor failed");
    assert!(status_from_result(Ok(())).is_ok());
}

#[test]
fn plain_error_status_keeps_message() {
    let st = plain_error_status(&ExtensionError::BadValue("expected stage $x, got $y".into()));
    assert_eq!(st.get_code(), MONGO_EXTENSION_STATUS_RUNTIME_ERROR);
    assert_eq!(st.get_reason(), "expected stage $x, got $y");
}
