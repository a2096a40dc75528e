use bson::{Bson, Document};
use extension_sdk_mongodb::operation_metrics::{apply_metric_update, apply_metric_updates, merge_metrics_patch};
use extension_sdk_mongodb::stage_context::MetricUpdate;

#[test]
fn inc_defaults_missing_to_zero_and_saturates() {
    let mut d = Document::new();
    apply_metric_update(&mut d, &MetricUpdate::Inc { key: "n".into(), delta: 5 });
    assert_eq!(d.get_i64("n").unwrap(), 5);
    apply_metric_update(&mut d, &MetricUpdate::Inc { key: "n".into(), delta: i64::MAX });
    assert_eq!(d.get_i64("n").unwrap(), i64::MAX);
    d.insert("s", "text");
    apply_metric_update(&mut d, &MetricUpdate::Inc { key: "s".into(), delta: -2 });
    assert_eq!(d.get_i64("s").unwrap(), -2);
    d.insert("m", Bson::Int64(i64::MIN + 1));
    apply_metric_update(&mut d, &MetricUpdate::Inc { key: "m".into(), delta: -5 });
    assert_eq!(d.get_i64("m").unwrap(), i64::MIN);
}

#[test]
fn record_time_overwrites_and_reinterprets() {
    let mut d = Document::new();
    let ups = vec![
        MetricUpdate::RecordTime { key: "t".into(), elapsed_ns: 10 },
        MetricUpdate::RecordTime { key: "t".into(), elapsed_ns: 20 },
        MetricUpdate::RecordTime { key: "big".into(), elapsed_ns: u64::MAX },
    ];
    apply_metric_updates(&mut d, &ups);
    assert_eq!(d.get_i64("t").unwrap(), 20);
    assert_eq!(d.get_i64("big").unwrap(), -1);
    let keys: Vec<&String> = d.keys().collect();
    assert_eq!(keys, vec!["t", "big"]);
}

#[test]
fn merge_patch_inserts_fields_in_order() {
    let mut d = Document::new();
    d.insert("a", 1i64);
    let mut patch = Document::new();
    patch.insert("b", 2i32);
    patch.insert("a", "x");
    let mut bytes = Vec::new();
    patch.to_writer(&mut bytes).unwrap();
    merge_metrics_patch(&mut d, &bytes);
    assert_eq!(d.get_str("a").unwrap(), "x");
    assert_eq!(d.get_i32("b").unwrap(), 2);
    let keys: Vec<&String> = d.keys().collect();
    assert_eq!(keys, vec!["a", "b"]);
    let before = d.clone();
    merge_metrics_patch(&mut d, &[]);
    merge_metrics_patch(&mut d, &[9, 9]);
    assert_eq!(d, before);
}

#[test]
fn increments_add_up_and_leave_other_keys() {
    let mut d = Document::new();
    d.insert("other", "keep");
    d.insert("n", 10i64);
    let ups = vec![
        MetricUpdate::Inc { key: "n".into(), delta: 7 },
        MetricUpdate::Inc { key: "n".into(), delta: -3 },
    ];
    apply_metric_updates(&mut d, &ups);
    assert_eq!(d.get_i64("n").unwrap(), 14);
    assert_eq!(d.get_str("other").unwrap(), "keep");
}

#[test]
fn repeated_record_time_leaves_one_record() {
    let mut once = Document::new();
    once.insert("a", 1i64);
    let mut twice = once.clone();
    let u = MetricUpdate::RecordTime { key: "t".into(), elapsed_ns: 42 };
    apply_metric_update(&mut once, &u);
    apply_metric_update(&mut twice, &u);
    apply_metric_update(&mut twice, &u);
    assert_eq!(once, twice);
}
