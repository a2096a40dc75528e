//! **Source** (generator) aggregation stages: they parse `{$stageName: <args>}` and emit documents
//! without requiring an upstream executable stage.

use vstd::prelude::*;

use bson::Document;

use crate::error::Result;
use crate::expansion::Expansion;
use crate::stage_context::StageContext;
use crate::stage_model::StagePlan;
use crate::stage_output::Next;
use crate::stage_properties::StageProperties;

verus! {

/// Implement this trait for a generator stage.
pub trait SourceStage: Sized + Send + 'static {
    /// Stage key including leading `$`, must match BSON (`{ $name: <args> }`).
    const NAME: &'static str;

    /// Parsed stage arguments (from the inner object of `{ Self::NAME: <args> }`).
    type Args;

    /// Per-cursor mutable state between [`SourceStage::next`] calls.
    type State;

    /// Validates and decodes `args`.
    fn parse(args: Document) -> Result<Self::Args>;

    /// Called once before the first [`SourceStage::next`].
    fn open(args: Self::Args, ctx: &mut StageContext) -> Result<Self::State>;

    /// Returns the next output row or end-of-stream.
    fn next(state: &mut Self::State, ctx: &mut StageContext) -> Result<Next>;

    /// Parse-time expansion. Default: no expansion ([`Expansion::SelfStage`]).
    fn expand(_args: &Self::Args) -> (e: Expansion)
        default_ensures
            e is SelfStage,
    {
        Expansion::SelfStage
    }

    /// Static planner properties. Default: [`StagePlan::source_default`].
    fn properties() -> (p: StageProperties)
        default_ensures
            p == StageProperties::spec_source_stage_default(),
    {
        StagePlan::source_default().properties
    }
}

} // verus!
