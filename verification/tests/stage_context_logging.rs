use extension_sdk_mongodb::host::ExtensionOptionsCache;
use extension_sdk_mongodb::stage_context::{
    deadline_from_host, interrupt_from_host, HostStatusReply, MetricUpdate, StageContext,
};
use extension_sdk_mongodb::sys::{
    MongoExtensionLogMessageSeverityOrLevel, MongoExtensionLogSeverity, MongoExtensionLogType,
};
use extension_sdk_mongodb::ExtensionError;

#[test]
fn stage_context_log_info_forwards_to_host_logger() {
    let mut ctx = StageContext::new();
    ctx.log_info("hello-sdk");
    let logs = ctx.take_pending_logs();
    let texts: Vec<String> = logs.iter().map(|m| String::from_utf8(m.message.data.clone()).unwrap()).collect();
    assert_eq!(texts.as_slice(), &["hello-sdk".to_string()]);
    assert_eq!(logs[0].code, 0);
    assert_eq!(logs[0].type_, MongoExtensionLogType::kLog);
    assert_eq!(
        logs[0].severity_or_level,
        MongoExtensionLogMessageSeverityOrLevel::Severity(MongoExtensionLogSeverity::kInfo)
    );
    assert!(logs[0].attributes.elements.is_empty());
    assert!(ctx.take_pending_logs().is_empty());
}

#[test]
fn log_severities_in_order() {
    let mut ctx = StageContext::new();
    ctx.log_warn("w");
    ctx.log_error("e");
    ctx.log_debug(3, "d");
    let logs = ctx.take_pending_logs();
    assert_eq!(logs.len(), 3);
    assert_eq!(
        logs[0].severity_or_level,
        MongoExtensionLogMessageSeverityOrLevel::Severity(MongoExtensionLogSeverity::kWarning)
    );
    assert_eq!(
        logs[1].severity_or_level,
        MongoExtensionLogMessageSeverityOrLevel::Severity(MongoExtensionLogSeverity::kError)
    );
    assert_eq!(logs[2].severity_or_level, MongoExtensionLogMessageSeverityOrLevel::Level(3));
    assert_eq!(MongoExtensionLogSeverity::kWarning.to_abi(), 1);
    assert_eq!(MongoExtensionLogType::kDebug.to_abi(), 1);
}

#[test]
fn cache_extension_options_from_portal_populates_snapshot() {
    let mut cache = ExtensionOptionsCache::new();
    cache.reset_extension_options_snapshot_for_tests();
    cache.cache_extension_options(b"sharedLibraryPath: /tmp\n");
    let snap = cache.extension_options_snapshot().expect("snapshot");
    assert!(snap.starts_with(b"sharedLibraryPath:"));
    cache.reset_extension_options_snapshot_for_tests();
    assert_eq!(cache.extension_options_snapshot(), None);
}

#[test]
fn empty_extension_options_are_not_cached() {
    let mut cache = ExtensionOptionsCache::new();
    cache.cache_extension_options(b"x: 1\n");
    cache.cache_extension_options(b"");
    assert_eq!(cache.extension_options_snapshot(), None);
}

#[test]
fn extension_options_attached_to_context() {
    let mut ctx = StageContext::new();
    assert_eq!(ctx.extension_options_raw(), None);
    ctx.attach_extension_options(Some(b"k: v".to_vec()));
    assert_eq!(ctx.extension_options_raw(), Some(b"k: v".to_vec()));
}

#[test]
fn metrics_only_recorded_when_bound() {
    let mut ctx = StageContext::new();
    ctx.metrics().inc("rows", 1);
    assert!(ctx.take_pending_metrics().is_empty());
    ctx.bind_execution(0x1000, 0x2000);
    assert_eq!(ctx.query_context(), Some(0x1000));
    assert_eq!(ctx.metrics_object(), Some(0x2000));
    ctx.metrics().inc("rows", 2);
    ctx.metrics().record_time("t", 5);
    let ups = ctx.take_pending_metrics();
    assert_eq!(ups.len(), 2);
    assert!(matches!(&ups[0], MetricUpdate::Inc { key, delta: 2 } if key == "rows"));
    assert!(matches!(&ups[1], MetricUpdate::RecordTime { key, elapsed_ns: 5 } if key == "t"));
    ctx.unbind_execution();
    assert_eq!(ctx.query_context(), None);
    ctx.metrics().inc("rows", 1);
    assert!(ctx.take_pending_metrics().is_empty());
}

#[test]
fn deadline_and_interrupt_outcomes() {
    assert_eq!(deadline_from_host(None, 77), Ok(Some(77)));
    assert_eq!(deadline_from_host(Some(extension_sdk_mongodb::stage_context::HostStatusReply { code: 0, reason: vec![] }), 5), Ok(Some(5)));
    assert_eq!(
        deadline_from_host(Some(extension_sdk_mongodb::stage_context::HostStatusReply { code: 11, reason: vec![] }), 5),
        Err(extension_sdk_mongodb::ExtensionError::HostError { code: 11, reason: "get_deadline_timestamp_ms failed".into() })
    );
    assert_eq!(
        deadline_from_host(Some(extension_sdk_mongodb::stage_context::HostStatusReply { code: 11, reason: b"late".to_vec() }), 5),
        Err(extension_sdk_mongodb::ExtensionError::HostError { code: 11, reason: "late".into() })
    );
    assert_eq!(interrupt_from_host(extension_sdk_mongodb::stage_context::HostStatusReply { code: 0, reason: vec![] }), Ok(()));
    assert_eq!(
        interrupt_from_host(extension_sdk_mongodb::stage_context::HostStatusReply { code: 262, reason: vec![] }),
        Err(extension_sdk_mongodb::ExtensionError::HostError { code: 262, reason: "check_for_interrupt".into() })
    );
    assert_eq!(
        interrupt_from_host(extension_sdk_mongodb::stage_context::HostStatusReply { code: 262, reason: vec![0xff, b'x'] }),
        Err(extension_sdk_mongodb::ExtensionError::HostError { code: 262, reason: "\u{fffd}x".into() })
    );
}

#[test]
fn interrupt_recorded_on_filled_status_is_reported() {
    let mut filled = extension_sdk_mongodb::status::new_error_status(0, "");
    assert_eq!(extension_sdk_mongodb::stage_context::check_interrupt_outcome(None, &filled), Ok(()));
    filled.set_code(11601);
    filled.set_reason("operation was interrupted");
    assert_eq!(
        extension_sdk_mongodb::stage_context::check_interrupt_outcome(None, &filled),
        Err(extension_sdk_mongodb::ExtensionError::HostError { code: 11601, reason: "operation was interrupted".into() })
    );
    let mut silent = extension_sdk_mongodb::status::new_error_status(0, "");
    silent.set_code(50);
    assert_eq!(
        extension_sdk_mongodb::stage_context::check_interrupt_outcome(None, &silent),
        Err(extension_sdk_mongodb::ExtensionError::HostError { code: 50, reason: "check_for_interrupt".into() })
    );
    let returned = extension_sdk_mongodb::stage_context::HostStatusReply { code: 262, reason: b"killed".to_vec() };
    assert_eq!(
        extension_sdk_mongodb::stage_context::check_interrupt_outcome(Some(returned), &extension_sdk_mongodb::status::new_error_status(0, "")),
        Err(extension_sdk_mongodb::ExtensionError::HostError { code: 262, reason: "killed".into() })
    );
    let ok_returned = extension_sdk_mongodb::stage_context::HostStatusReply { code: 0, reason: Vec::new() };
    assert_eq!(extension_sdk_mongodb::stage_context::check_interrupt_outcome(Some(ok_returned), &extension_sdk_mongodb::status::new_error_status(0, "")), Ok(()));
}
