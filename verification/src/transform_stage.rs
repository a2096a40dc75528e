//! Trait-based **transform** stages (per-document map with typed arguments and a
//! [`StageContext`]).

use vstd::prelude::*;

use bson::Document;

use crate::error::Result;
use crate::expansion::Expansion;
use crate::stage_context::StageContext;
use crate::stage_model::StagePlan;
use crate::stage_properties::StageProperties;

verus! {

/// Implement this trait for a transform stage.
pub trait TransformStage: Sized + Send + 'static {
    /// Stage key including leading `$`, must match BSON (`{ Self::NAME: <args> }`).
    const NAME: &'static str;

    /// Parsed inner object for `{ Self::NAME: <args> }`.
    type Args;

    /// Validates and decodes stage arguments.
    fn parse(args: Document) -> Result<Self::Args>;

    /// Maps one upstream document to one output document.
    fn transform(input: Document, args: &Self::Args, ctx: &mut StageContext) -> Result<Document>;

    /// Lower this stage to itself or to a linear pipeline (parse-time expansion).
    ///
    /// Default: no expansion ([`Expansion::SelfStage`]).
    fn expand(_args: &Self::Args) -> (e: Expansion)
        default_ensures
            e is SelfStage,
    {
        Expansion::SelfStage
    }

    /// Static planner properties.
    ///
    /// Default: [`StagePlan::transform_streaming_default`].
    fn properties() -> (p: StageProperties)
        default_ensures
            p == StageProperties::spec_transform_stage_default(),
    {
        StagePlan::transform_streaming_default().properties
    }
}

} // verus!
