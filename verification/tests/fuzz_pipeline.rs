use extension_sdk_mongodb::fuzz_pipeline::{
    ascii_from_draws, leaf_from_draws, pipeline_for_stage, pipeline_from_args, random_ascii, random_bson_leaf,
    random_bson_value, random_stage_args_rust_sdk_e2e, stage_args_from_draw, value_from_draws, FuzzLeaf,
    FuzzValue, FUZZ_STAGE_NAME,
};
use rand::rngs::StdRng;
use rand::SeedableRng;

fn lowercase(s: &str) -> bool {
    s.chars().all(|c| c.is_ascii_lowercase())
}

fn leaf_ok(l: &FuzzLeaf) -> bool {
    match l {
        FuzzLeaf::String(s) => s.chars().count() <= 48 && lowercase(s),
        FuzzLeaf::RegularExpression { pattern, options } => {
            pattern.chars().count() <= 8 && lowercase(pattern) && options == "i"
        }
        FuzzLeaf::ObjectIdNew => false,
        _ => true,
    }
}

fn well_shaped(v: &FuzzValue, depth: u32) -> bool {
    match v {
        FuzzValue::Leaf(l) => leaf_ok(l),
        FuzzValue::Document(fields) => {
            depth > 0
                && fields.len() <= 10
                && fields
                    .iter()
                    .enumerate()
                    .all(|(i, (k, c))| *k == format!("k{i}") && well_shaped(c, depth - 1))
        }
        FuzzValue::Array(items) => depth > 0 && items.len() <= 8 && items.iter().all(|c| well_shaped(c, depth - 1)),
    }
}

#[test]
fn random_ascii_respects_bound_and_alphabet() {
    let mut rng = StdRng::seed_from_u64(7);
    for _ in 0..200 {
        let s = random_ascii(&mut rng, 5);
        assert!(s.len() <= 5);
        assert!(lowercase(&s));
        let t = random_ascii(&mut rng, 0);
        assert!(t.len() <= 1);
        assert!(lowercase(&t));
    }
}

#[test]
fn leaves_never_object_ids() {
    let mut rng = StdRng::seed_from_u64(11);
    for _ in 0..2000 {
        let l = random_bson_leaf(&mut rng);
        assert!(leaf_ok(&l), "{l:?}");
    }
}

#[test]
fn values_are_well_shaped() {
    let mut rng = StdRng::seed_from_u64(3);
    for depth in 0..4u8 {
        for _ in 0..100 {
            let v = random_bson_value(&mut rng, depth);
            assert!(well_shaped(&v, depth as u32));
            if depth == 0 {
                assert!(matches!(v, FuzzValue::Leaf(_)));
            }
        }
    }
}

#[test]
fn stage_args_are_documents_or_fallback() {
    let mut rng = StdRng::seed_from_u64(5);
    let mut saw_fallback = false;
    for _ in 0..300 {
        let args = random_stage_args_rust_sdk_e2e(&mut rng);
        let fallback = args.len() == 1
            && args[0].0 == "x"
            && matches!(args[0].1, FuzzValue::Leaf(FuzzLeaf::Int32(1)));
        saw_fallback |= fallback;
        assert!(fallback || well_shaped(&FuzzValue::Document(args), 3));
    }
    assert!(saw_fallback);
}

#[test]
fn pipeline_has_one_stage_named_rust_sdk_e2e() {
    let mut rng = StdRng::seed_from_u64(9);
    let p = pipeline_for_stage(&mut rng);
    assert_eq!(p.len(), 1);
    match &p[0] {
        FuzzValue::Document(stage) => {
            assert_eq!(stage.len(), 1);
            assert_eq!(stage[0].0, FUZZ_STAGE_NAME);
            assert_eq!(FUZZ_STAGE_NAME, "$rustSdkE2e");
            assert!(matches!(stage[0].1, FuzzValue::Document(_)));
        }
        other => panic!("not a document: {other:?}"),
    }
}

#[test]
fn same_seed_same_pipeline() {
    let mut a = StdRng::seed_from_u64(42);
    let mut b = StdRng::seed_from_u64(42);
    for _ in 0..20 {
        let pa = format!("{:?}", pipeline_for_stage(&mut a));
        let pb = format!("{:?}", pipeline_for_stage(&mut b));
        assert_eq!(pa, pb);
    }
}

#[test]
fn ascii_from_draws_maps_bytes_to_letters() {
    assert_eq!(ascii_from_draws(&vec![104, 105, 122]), "hiz");
    assert_eq!(ascii_from_draws(&vec![]), "");
}

#[test]
fn leaf_from_draws_follows_the_kind() {
    let l = |pick| leaf_from_draws(pick, true, -3, 7, 99, "ab".to_string(), 5, 6);
    assert_eq!(l(0), FuzzLeaf::Null);
    assert_eq!(l(1), FuzzLeaf::Boolean(true));
    assert_eq!(l(2), FuzzLeaf::Int32(-3));
    assert_eq!(l(3), FuzzLeaf::Int64(7));
    assert_eq!(l(4), FuzzLeaf::Double(99));
    assert_eq!(l(5), FuzzLeaf::String("ab".into()));
    assert_eq!(l(6), FuzzLeaf::RegularExpression { pattern: "ab".into(), options: "i".into() });
    assert_eq!(l(7), FuzzLeaf::DateTimeNow);
    assert_eq!(l(8), FuzzLeaf::Timestamp { time: 5, increment: 6 });
    assert_eq!(l(9), FuzzLeaf::ObjectIdNew);
}

#[test]
fn value_from_draws_builds_documents_arrays_and_leaves() {
    let kids = || vec![FuzzValue::Leaf(FuzzLeaf::Int32(1)), FuzzValue::Leaf(FuzzLeaf::Null)];
    match value_from_draws(2, 3, kids(), FuzzLeaf::Null) {
        FuzzValue::Document(f) => {
            assert_eq!(f.len(), 2);
            assert_eq!(f[0].0, "k0");
            assert_eq!(f[1].0, "k1");
            assert!(matches!(f[0].1, FuzzValue::Leaf(FuzzLeaf::Int32(1))));
        }
        other => panic!("{other:?}"),
    }
    assert!(matches!(value_from_draws(2, 7, kids(), FuzzLeaf::Null), FuzzValue::Array(ref a) if a.len() == 2));
    assert!(matches!(value_from_draws(2, 9, vec![], FuzzLeaf::Boolean(false)), FuzzValue::Leaf(FuzzLeaf::Boolean(false))));
    assert!(matches!(value_from_draws(0, 3, vec![], FuzzLeaf::Null), FuzzValue::Leaf(FuzzLeaf::Null)));
}

#[test]
fn stage_args_and_pipeline_from_draws() {
    let args = stage_args_from_draw(FuzzValue::Leaf(FuzzLeaf::Null));
    assert_eq!(args.len(), 1);
    assert_eq!(args[0].0, "x");
    let doc = FuzzValue::Document(vec![("k0".to_string(), FuzzValue::Leaf(FuzzLeaf::Int64(4)))]);
    let args = stage_args_from_draw(doc);
    assert_eq!(args[0].0, "k0");
    let p = pipeline_from_args(args);
    match &p[..] {
        [FuzzValue::Document(stage)] => {
            assert_eq!(stage[0].0, "$rustSdkE2e");
            assert!(matches!(&stage[0].1, FuzzValue::Document(a) if a.len() == 1 && a[0].0 == "k0"));
        }
        other => panic!("{other:?}"),
    }
}
