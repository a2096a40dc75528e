use bson::Document;
use extension_sdk_mongodb::sys::{MongoExtensionLogMessageSeverityOrLevel, MongoExtensionLogType};
use extension_sdk_mongodb::transform_stage::TransformStage;
use extension_sdk_mongodb::ExtensionError;
use extension_sdk_mongodb::StageContext;

struct UpperName;

impl TransformStage for UpperName {
    const NAME: &'static str = "$upperName";
    type Args = String;

    fn parse(args: Document) -> extension_sdk_mongodb::ExtensionResult<Self::Args> {
        args.get_str("field")
            .map(|s| s.to_uppercase())
            .map_err(|_| ExtensionError::BadValue("missing field".into()))
    }

    fn transform(
        input: Document,
        args: &Self::Args,
        ctx: &mut StageContext,
    ) -> extension_sdk_mongodb::ExtensionResult<Document> {
        ctx.log_debug(1, "transform");
        let mut out = input;
        out.insert("FIELD", args.as_str());
        Ok(out)
    }
}

#[test]
fn transform_stage_parse_and_transform() {
    let mut a = Document::new();
    a.insert("field", "name");
    let args = UpperName::parse(a).expect("parse");
    assert_eq!(args, "NAME");
    let mut ctx = StageContext::new();
    let mut input = Document::new();
    input.insert("x", 1i32);
    let out = UpperName::transform(input, &args, &mut ctx).expect("transform");
    assert_eq!(out.get_str("FIELD").ok(), Some("NAME"));
    let logs = ctx.take_pending_logs();
    assert_eq!(logs.len(), 1);
    assert_eq!(logs[0].message.data, b"transform".to_vec());
    assert_eq!(logs[0].type_, MongoExtensionLogType::kDebug);
    assert_eq!(logs[0].severity_or_level, MongoExtensionLogMessageSeverityOrLevel::Level(1));
}
