use bson::Document;
use extension_sdk_mongodb::blocking_stage::BlockingStage;
use extension_sdk_mongodb::error::{ExtensionError, Result};
use extension_sdk_mongodb::expansion::Expansion;
use extension_sdk_mongodb::stage_context::StageContext;
use extension_sdk_mongodb::stage_model::StagePlan;
use extension_sdk_mongodb::stage_output::Next;

/// Collects `n` from each `{ n: <i32> }` input; `finish` emits count then sum as two docs.
struct CountSumStage;

struct CountSumArgs;
struct CountSumState {
    count: i32,
    sum: i32,
    finished: bool,
}

fn kind_v(kind: &str, v: i32) -> Document {
    let mut d = Document::new();
    d.insert("kind", kind);
    d.insert("v", v);
    d
}

fn n_doc(n: i32) -> Document {
    let mut d = Document::new();
    d.insert("n", n);
    d
}

impl BlockingStage for CountSumStage {
    const NAME: &'static str = "$countSumBlockingTest";
    type Args = CountSumArgs;
    type State = CountSumState;

    fn parse(args: Document) -> Result<Self::Args> {
        if !args.is_empty() {
            return Err(ExtensionError::BadValue("expected empty args".into()));
        }
        Ok(CountSumArgs)
    }

    fn open(_args: Self::Args, _ctx: &mut StageContext) -> Result<Self::State> {
        Ok(CountSumState { count: 0, sum: 0, finished: false })
    }

    fn consume(state: &mut Self::State, input: Document, _ctx: &mut StageContext) -> Result<()> {
        assert!(!state.finished, "consume must not run after finish (EOF semantics)");
        let n = input.get_i32("n").unwrap_or(0);
        state.count += 1;
        state.sum += n;
        Ok(())
    }

    fn finish(state: &mut Self::State, _ctx: &mut StageContext) -> Result<Vec<Next>> {
        assert!(!state.finished, "finish must run at most once");
        state.finished = true;
        Ok(vec![
            Next::Advanced { document: kind_v("count", state.count), metadata: None },
            Next::Advanced { document: kind_v("sum", state.sum), metadata: None },
        ])
    }
}

#[test]
fn blocking_expand_default_is_self_stage() {
    let a = CountSumStage::parse(Document::new()).unwrap();
    assert_eq!(CountSumStage::expand(&a), Expansion::SelfStage);
}

#[test]
fn blocking_default_properties_match_blocking_stage_plan() {
    assert_eq!(CountSumStage::properties(), StagePlan::blocking_default().properties);
}

#[test]
fn finish_after_zero_consumes_emits_zero_aggregates() {
    let mut ctx = StageContext::new();
    let mut st = CountSumStage::open(CountSumStage::parse(Document::new()).unwrap(), &mut ctx).unwrap();
    let out = CountSumStage::finish(&mut st, &mut ctx).unwrap();
    assert_eq!(out.len(), 2);
    let d0 = match &out[0] {
        Next::Advanced { document, .. } => document,
        _ => panic!("expected Advanced"),
    };
    let d1 = match &out[1] {
        Next::Advanced { document, .. } => document,
        _ => panic!("expected Advanced"),
    };
    assert_eq!(d0.get_i32("v").unwrap(), 0);
    assert_eq!(d1.get_i32("v").unwrap(), 0);
    assert!(st.finished);
}

#[test]
fn consumes_all_input_then_finish_emits_outputs() {
    let mut ctx = StageContext::new();
    let mut st = CountSumStage::open(CountSumStage::parse(Document::new()).unwrap(), &mut ctx).unwrap();
    CountSumStage::consume(&mut st, n_doc(2), &mut ctx).unwrap();
    CountSumStage::consume(&mut st, n_doc(3), &mut ctx).unwrap();
    CountSumStage::consume(&mut st, n_doc(4), &mut ctx).unwrap();
    let out = CountSumStage::finish(&mut st, &mut ctx).unwrap();
    assert_eq!(out.len(), 2);
    let d0 = match &out[0] {
        Next::Advanced { document, .. } => document,
        _ => panic!("expected Advanced"),
    };
    let d1 = match &out[1] {
        Next::Advanced { document, .. } => document,
        _ => panic!("expected Advanced"),
    };
    assert_eq!(d0.get_i32("v").unwrap(), 3);
    assert_eq!(d1.get_i32("v").unwrap(), 9);
    assert!(st.finished);
}

#[test]
fn output_only_after_finish() {
    let mut ctx = StageContext::new();
    let mut st = CountSumStage::open(CountSumStage::parse(Document::new()).unwrap(), &mut ctx).unwrap();
    CountSumStage::consume(&mut st, n_doc(1), &mut ctx).unwrap();
    let out = CountSumStage::finish(&mut st, &mut ctx).unwrap();
    assert!(!out.is_empty());
}

#[test]
#[should_panic(expected = "consume must not run after finish")]
fn consume_after_upstream_eof_panics() {
    let mut ctx = StageContext::new();
    let mut st = CountSumStage::open(CountSumStage::parse(Document::new()).unwrap(), &mut ctx).unwrap();
    CountSumStage::consume(&mut st, n_doc(5), &mut ctx).unwrap();
    let _ = CountSumStage::finish(&mut st, &mut ctx).unwrap();
    let _ = CountSumStage::consume(&mut st, n_doc(1), &mut ctx);
}

#[test]
#[should_panic(expected = "finish must run at most once")]
fn finish_twice_panics() {
    let mut ctx = StageContext::new();
    let mut st = CountSumStage::open(CountSumStage::parse(Document::new()).unwrap(), &mut ctx).unwrap();
    let _ = CountSumStage::finish(&mut st, &mut ctx).unwrap();
    let _ = CountSumStage::finish(&mut st, &mut ctx);
}
