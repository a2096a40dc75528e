//! Minimal **passthrough transform** stage: parses `{$stageName: <args>}` and forwards documents
//! from the upstream executable stage unchanged.

use vstd::prelude::*;

use crate::error::ExtensionError;
use crate::source_exec::GetNextAction;
use crate::stage_parse::{parse_stage_definition, stage_args_outcome};

verus! {

/// Stage name and parse options of an exported stage.
#[derive(Clone, Copy, Debug)]
pub struct StageGlobals {
    /// Stage key including leading `$`, e.g. `"$myRustPass"`.
    pub name: &'static str,
    /// If true, the inner document must be empty (like `$testFoo: {}`).
    pub expect_empty: bool,
}

impl StageGlobals {
    /// The UTF-8 bytes of the stage name (what `get_name` hands to the host).
    pub fn name_bytes(&self) -> (b: &'static [u8])
        ensures
            b@ == vstd::utf8::encode_utf8(self.name@),
    {
        self.name.as_bytes()
    }

    /// Parses a stage definition for this stage (see
    /// [`parse_stage_definition`](crate::stage_parse::parse_stage_definition)).
    pub fn parse_stage(&self, stage_bson: &[u8]) -> (r: Result<Vec<u8>, ExtensionError>)
        ensures
            match crate::bson_doc::bson_decode(stage_bson@) {
                None => r matches Err(e) && e is FailedToParse,
                Some(d) => stage_args_outcome(crate::bson_doc::document_fields(d), self.name@, self.expect_empty, r),
            },
    {
        parse_stage_definition(stage_bson, self.name, self.expect_empty)
    }
}

/// How the passthrough stage serves `get_next`: forward to the upstream stage, or answer end of
/// stream when none is set.
pub fn passthrough_get_next_action(has_source: bool) -> (a: GetNextAction)
    ensures
        has_source ==> a == GetNextAction::ForwardUpstream,
        !has_source ==> a == GetNextAction::EmitEof,
{
    if has_source {
        GetNextAction::ForwardUpstream
    } else {
        GetNextAction::EmitEof
    }
}

} // verus!
