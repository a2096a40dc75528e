//! **Blocking-stage** abstraction: buffer upstream documents, then emit one or more results after
//! the input stream ends.

use vstd::prelude::*;

use bson::Document;

use crate::error::Result;
use crate::expansion::Expansion;
use crate::stage_context::StageContext;
use crate::stage_model::StagePlan;
use crate::stage_output::Next;
use crate::stage_properties::StageProperties;

verus! {

/// A stage that consumes the entire upstream sequence before emitting output rows: `consume`
/// for each upstream document, then `finish` exactly once after upstream EOF.
pub trait BlockingStage: Sized + Send + 'static {
    /// Stage key including leading `$`, must match BSON (`{ Self::NAME: <args> }`).
    const NAME: &'static str;

    /// Parsed inner object for `{ Self::NAME: <args> }`.
    type Args;

    /// Mutable state across `consume` / `finish`.
    type State;

    /// Decode stage arguments from BSON.
    fn parse(args: Document) -> Result<Self::Args>;

    /// Allocate state before the first `consume`.
    fn open(args: Self::Args, ctx: &mut StageContext) -> Result<Self::State>;

    /// Called once per upstream row while the stage is accepting input.
    fn consume(state: &mut Self::State, input: Document, ctx: &mut StageContext) -> Result<()>;

    /// Called once after upstream EOF; produces all output rows.
    fn finish(state: &mut Self::State, ctx: &mut StageContext) -> Result<Vec<Next>>;

    /// Parse-time expansion. Default: no expansion ([`Expansion::SelfStage`]).
    fn expand(_args: &Self::Args) -> (e: Expansion)
        default_ensures
            e is SelfStage,
    {
        Expansion::SelfStage
    }

    /// Planner static properties aligned with [`StagePlan::blocking_default`].
    fn properties() -> (p: StageProperties)
        default_ensures
            p == StagePlan::spec_blocking_default().properties,
    {
        StagePlan::blocking_default().properties
    }
}

} // verus!
