//! Execution state machine of a source (generator) stage.
//!
//! On every `get_next` the stage either forwards to an upstream stage, probes the upstream
//! stage once to learn whether it produces rows, or runs the generator. The decisions live
//! here; the calls into the host and into the stage's hooks are made by the caller, which
//! reports their outcomes back as events.

use vstd::prelude::*;

use crate::bson_doc::{doc_to_bytes, document_bson_encoding};
use crate::error::ExtensionError;
use crate::stage_output::Next;
use crate::sys::{
    MongoExtensionByteContainer, MongoExtensionByteContainerType, MongoExtensionGetNextResult,
    MongoExtensionGetNextResultCode,
};

verus! {

/// How the stage serves `get_next`.
#[derive(Clone, Copy, Debug, PartialEq, Eq, Structural)]
pub enum SourceExecMode {
    /// Not decided yet.
    Init,
    /// The upstream stage produced a row: forward every call to it.
    Passthrough,
    /// No upstream rows: the generator produces the output.
    Generator,
}

/// What the caller must do to serve one `get_next` call.
#[derive(Clone, Copy, Debug, PartialEq, Eq, Structural)]
pub enum GetNextAction {
    /// Call the upstream `get_next` and return its status (the upstream fills the result).
    ForwardUpstream,
    /// Call the upstream `get_next`; an error status is returned as it is, otherwise the
    /// result code is reported with [`SourceExecState::on_upstream_probed`].
    ProbeUpstream,
    /// Return OK without touching the result.
    ReturnOk,
    /// Fill an end-of-stream result and return OK.
    EmitEof,
    /// Decode the stage arguments, open the generator state first when `open_first`, then ask
    /// the generator for its next row.
    RunGenerator { open_first: bool },
}

/// Outside events that move the state machine.
#[derive(Clone, Copy, Debug, PartialEq, Eq, Structural)]
pub enum SourceExecEvent {
    /// The host called `get_next`.
    GetNextCalled,
    /// The upstream probe returned OK with this result code.
    UpstreamProbed(MongoExtensionGetNextResultCode),
    /// The generator state was opened.
    GeneratorOpened,
    /// The generator reported end of stream (its state is dropped).
    GeneratorFinished,
    /// The host set (or cleared) the upstream stage.
    SourceSet(bool),
}

/// Execution state of a source stage.
#[derive(Clone, Copy, Debug, PartialEq, Eq, Structural)]
pub struct SourceExecState {
    pub mode: SourceExecMode,
    /// The generator reported end of stream.
    pub generator_done: bool,
    /// The upstream stage produced at least one row.
    pub saw_upstream_advanced: bool,
    /// An upstream stage is set.
    pub has_source: bool,
    /// The generator state is open.
    pub has_state: bool,
}

/// The action for a stage whose mode is settled (no upstream call is due).
pub open spec fn spec_generator_action(s: SourceExecState) -> GetNextAction {
    if s.mode != SourceExecMode::Generator {
        GetNextAction::ReturnOk
    } else if s.generator_done {
        GetNextAction::EmitEof
    } else {
        GetNextAction::RunGenerator { open_first: !s.has_state }
    }
}

/// The state after an event.
pub open spec fn spec_step(s: SourceExecState, e: SourceExecEvent) -> SourceExecState {
    match e {
        SourceExecEvent::GetNextCalled => {
            if s.has_source && (s.mode == SourceExecMode::Passthrough || s.mode == SourceExecMode::Init) {
                s
            } else if s.mode == SourceExecMode::Init {
                SourceExecState { mode: SourceExecMode::Generator, ..s }
            } else {
                s
            }
        },
        SourceExecEvent::UpstreamProbed(code) => {
            if s.mode != SourceExecMode::Init || !s.has_source {
                s
            } else if code == MongoExtensionGetNextResultCode::kAdvanced {
                SourceExecState { mode: SourceExecMode::Passthrough, saw_upstream_advanced: true, ..s }
            } else if code == MongoExtensionGetNextResultCode::kEOF && !s.saw_upstream_advanced {
                SourceExecState { mode: SourceExecMode::Generator, ..s }
            } else {
                s
            }
        },
        SourceExecEvent::GeneratorOpened => {
            if s.mode == SourceExecMode::Generator && !s.generator_done {
                SourceExecState { has_state: true, ..s }
            } else {
                s
            }
        },
        SourceExecEvent::GeneratorFinished => {
            if s.mode == SourceExecMode::Generator {
                SourceExecState { has_state: false, generator_done: true, ..s }
            } else {
                s
            }
        },
        SourceExecEvent::SourceSet(present) => SourceExecState { has_source: present, ..s },
    }
}

/// The action the caller must take after an event (`ReturnOk` for events that need none).
pub open spec fn spec_action(s: SourceExecState, e: SourceExecEvent) -> GetNextAction {
    match e {
        SourceExecEvent::GetNextCalled => {
            if s.mode == SourceExecMode::Passthrough && s.has_source {
                GetNextAction::ForwardUpstream
            } else if s.mode == SourceExecMode::Init && s.has_source {
                GetNextAction::ProbeUpstream
            } else {
                spec_generator_action(spec_step(s, e))
            }
        },
        SourceExecEvent::UpstreamProbed(code) => {
            if s.mode != SourceExecMode::Init || !s.has_source {
                GetNextAction::ReturnOk
            } else if code == MongoExtensionGetNextResultCode::kEOF && !s.saw_upstream_advanced {
                spec_generator_action(spec_step(s, e))
            } else {
                GetNextAction::ReturnOk
            }
        },
        _ => GetNextAction::ReturnOk,
    }
}

/// The state after a sequence of events.
pub open spec fn spec_run(s: SourceExecState, events: Seq<SourceExecEvent>) -> SourceExecState
    decreases events.len(),
{
    if events.len() == 0 {
        s
    } else {
        spec_run(spec_step(s, events[0]), events.drop_first())
    }
}

impl SourceExecState {
    /// Consistency of the flags with the mode.
    pub open spec fn wf(self) -> bool {
        &&& self.mode == SourceExecMode::Init ==> !self.saw_upstream_advanced && !self.generator_done
            && !self.has_state
        &&& self.mode == SourceExecMode::Passthrough ==> self.saw_upstream_advanced && !self.generator_done
            && !self.has_state
        &&& self.mode == SourceExecMode::Generator ==> !self.saw_upstream_advanced
        &&& self.generator_done ==> !self.has_state
    }

    /// A fresh execution stage: undecided, no upstream, no generator state.
    pub fn new() -> (s: Self)
        ensures
            s.wf(),
            s.mode == SourceExecMode::Init,
            !s.generator_done,
            !s.saw_upstream_advanced,
            !s.has_source,
            !s.has_state,
    {
        SourceExecState {
            mode: SourceExecMode::Init,
            generator_done: false,
            saw_upstream_advanced: false,
            has_source: false,
            has_state: false,
        }
    }

    fn generator_action(&self) -> (a: GetNextAction)
        ensures
            a == spec_generator_action(*self),
    {
        if self.mode != SourceExecMode::Generator {
            GetNextAction::ReturnOk
        } else if self.generator_done {
            GetNextAction::EmitEof
        } else {
            GetNextAction::RunGenerator { open_first: !self.has_state }
        }
    }

    /// The host called `get_next`: decide how to serve it.
    pub fn on_get_next(&mut self) -> (a: GetNextAction)
        requires
            old(self).wf(),
        ensures
            final(self).wf(),
            *final(self) == spec_step(*old(self), SourceExecEvent::GetNextCalled),
            a == spec_action(*old(self), SourceExecEvent::GetNextCalled),
    {
        if self.mode == SourceExecMode::Passthrough && self.has_source {
            return GetNextAction::ForwardUpstream;
        }
        if self.mode == SourceExecMode::Init && self.has_source {
            return GetNextAction::ProbeUpstream;
        }
        if self.mode == SourceExecMode::Init {
            self.mode = SourceExecMode::Generator;
        }
        self.generator_action()
    }

    /// The upstream probe returned OK with `code`.
    pub fn on_upstream_probed(&mut self, code: MongoExtensionGetNextResultCode) -> (a: GetNextAction)
        requires
            old(self).wf(),
        ensures
            final(self).wf(),
            *final(self) == spec_step(*old(self), SourceExecEvent::UpstreamProbed(code)),
            a == spec_action(*old(self), SourceExecEvent::UpstreamProbed(code)),
    {
        if self.mode != SourceExecMode::Init || !self.has_source {
            return GetNextAction::ReturnOk;
        }
        if code == MongoExtensionGetNextResultCode::kAdvanced {
            self.saw_upstream_advanced = true;
            self.mode = SourceExecMode::Passthrough;
            return GetNextAction::ReturnOk;
        }
        if code == MongoExtensionGetNextResultCode::kEOF && !self.saw_upstream_advanced {
            self.mode = SourceExecMode::Generator;
            self.generator_action()
        } else {
            GetNextAction::ReturnOk
        }
    }

    /// The generator state was opened.
    pub fn on_generator_opened(&mut self)
        requires
            old(self).wf(),
        ensures
            final(self).wf(),
            *final(self) == spec_step(*old(self), SourceExecEvent::GeneratorOpened),
    {
        if self.mode == SourceExecMode::Generator && !self.generator_done {
            self.has_state = true;
        }
    }

    /// The generator reported end of stream; its state is dropped.
    pub fn on_generator_finished(&mut self)
        requires
            old(self).wf(),
        ensures
            final(self).wf(),
            *final(self) == spec_step(*old(self), SourceExecEvent::GeneratorFinished),
    {
        if self.mode == SourceExecMode::Generator {
            self.has_state = false;
            self.generator_done = true;
        }
    }

    /// The host set the upstream stage (`present` is false for a null stage).
    pub fn set_source(&mut self, present: bool)
        requires
            old(self).wf(),
        ensures
            final(self).wf(),
            *final(self) == spec_step(*old(self), SourceExecEvent::SourceSet(present)),
    {
        self.has_source = present;
    }
}

/// Every event keeps the state consistent.
pub proof fn lemma_step_keeps_wf(s: SourceExecState, e: SourceExecEvent)
    requires
        s.wf(),
    ensures
        spec_step(s, e).wf(),
{
}

/// Any sequence of events keeps the state consistent.
pub proof fn lemma_run_keeps_wf(s: SourceExecState, events: Seq<SourceExecEvent>)
    requires
        s.wf(),
    ensures
        spec_run(s, events).wf(),
    decreases events.len(),
{
    if events.len() > 0 {
        lemma_run_keeps_wf(spec_step(s, events[0]), events.drop_first());
    }
}

/// Once the upstream stage produced a row, the stage forwards to it for good: no sequence of
/// events leaves passthrough mode.
pub proof fn lemma_passthrough_is_permanent(s: SourceExecState, events: Seq<SourceExecEvent>)
    requires
        s.mode == SourceExecMode::Passthrough,
    ensures
        spec_run(s, events).mode == SourceExecMode::Passthrough,
        spec_run(s, events).saw_upstream_advanced == s.saw_upstream_advanced,
    decreases events.len(),
{
    if events.len() > 0 {
        lemma_passthrough_is_permanent(spec_step(s, events[0]), events.drop_first());
    }
}

/// Once decided, the mode never returns to undecided.
pub proof fn lemma_mode_never_returns_to_init(s: SourceExecState, events: Seq<SourceExecEvent>)
    requires
        s.mode != SourceExecMode::Init,
    ensures
        spec_run(s, events).mode == s.mode,
    decreases events.len(),
{
    if events.len() > 0 {
        lemma_mode_never_returns_to_init(spec_step(s, events[0]), events.drop_first());
    }
}

/// After the generator reported end of stream, the stage stays finished, and every later
/// `get_next` answers end of stream without running the generator again.
pub proof fn lemma_finished_generator_answers_eof(s: SourceExecState, events: Seq<SourceExecEvent>)
    requires
        s.wf(),
        s.mode == SourceExecMode::Generator,
        s.generator_done,
    ensures
        spec_run(s, events).mode == SourceExecMode::Generator,
        spec_run(s, events).generator_done,
        spec_action(spec_run(s, events), SourceExecEvent::GetNextCalled) == GetNextAction::EmitEof,
    decreases events.len(),
{
    if events.len() > 0 {
        lemma_finished_generator_answers_eof(spec_step(s, events[0]), events.drop_first());
    }
}

/// The generator never runs once the upstream stage has produced a row.
pub proof fn lemma_generator_runs_only_without_upstream_rows(s: SourceExecState, e: SourceExecEvent)
    requires
        s.wf(),
        spec_action(s, e) matches GetNextAction::RunGenerator { .. },
    ensures
        !s.saw_upstream_advanced,
        !spec_step(s, e).saw_upstream_advanced,
        spec_step(s, e).mode == SourceExecMode::Generator,
{
}

/// The generator state is opened only when none is open and the generator has not finished:
/// with the state opened (and its opening reported), later steps use it without opening again.
pub proof fn lemma_generator_opened_once(s: SourceExecState, e: SourceExecEvent)
    requires
        s.wf(),
    ensures
        spec_action(s, e) == (GetNextAction::RunGenerator { open_first: true }) ==> !s.has_state
            && !s.generator_done,
        s.has_state ==> spec_action(s, e) != (GetNextAction::RunGenerator { open_first: true }),
        spec_action(s, e) == (GetNextAction::RunGenerator { open_first: true }) ==> spec_step(
            spec_step(s, e),
            SourceExecEvent::GeneratorOpened,
        ).has_state,
{
}

/// In generator mode, until the generator reports end of stream, every `get_next` runs the
/// generator (opening its state first only when none is open), whether or not an upstream stage
/// is set, and leaves the state as it is: an open generator keeps yielding rows.
pub proof fn lemma_generator_keeps_running(s: SourceExecState)
    requires
        s.wf(),
        s.mode == SourceExecMode::Generator,
        !s.generator_done,
    ensures
        spec_action(s, SourceExecEvent::GetNextCalled) == (GetNextAction::RunGenerator { open_first: !s.has_state }),
        spec_step(s, SourceExecEvent::GetNextCalled) == s,
{
}

/// The upstream stage is asked only while the mode is undecided (probe) or passthrough
/// (forward), and only when it is set.
pub proof fn lemma_upstream_called_only_with_source(s: SourceExecState)
    ensures
        spec_action(s, SourceExecEvent::GetNextCalled) == GetNextAction::ForwardUpstream
            ==> s.has_source && s.mode == SourceExecMode::Passthrough,
        spec_action(s, SourceExecEvent::GetNextCalled) == GetNextAction::ProbeUpstream
            ==> s.has_source && s.mode == SourceExecMode::Init,
{
}

/// An empty byte view container.
pub fn empty_view() -> (c: MongoExtensionByteContainer)
    ensures
        c.type_ == MongoExtensionByteContainerType::kByteView,
        c.bytes@ == Seq::<u8>::empty(),
{
    MongoExtensionByteContainer { type_: MongoExtensionByteContainerType::kByteView, bytes: Vec::new() }
}

/// The end-of-stream result: code `kEOF` and empty views for document and metadata.
pub fn eof_result() -> (r: MongoExtensionGetNextResult)
    ensures
        r.code == MongoExtensionGetNextResultCode::kEOF,
        r.result_document.type_ == MongoExtensionByteContainerType::kByteView,
        r.result_document.bytes@ == Seq::<u8>::empty(),
        r.result_metadata.type_ == MongoExtensionByteContainerType::kByteView,
        r.result_metadata.bytes@ == Seq::<u8>::empty(),
{
    MongoExtensionGetNextResult {
        code: MongoExtensionGetNextResultCode::kEOF,
        result_document: empty_view(),
        result_metadata: empty_view(),
    }
}

/// A row result: the document in an owned buffer, the metadata in an owned buffer when present
/// and an empty view otherwise.
pub fn advanced_result(document: Vec<u8>, metadata: Option<Vec<u8>>) -> (r: MongoExtensionGetNextResult)
    ensures
        r.code == MongoExtensionGetNextResultCode::kAdvanced,
        r.result_document.type_ == MongoExtensionByteContainerType::kByteBuf,
        r.result_document.bytes@ == document@,
        match metadata {
            Some(m) => r.result_metadata.type_ == MongoExtensionByteContainerType::kByteBuf
                && r.result_metadata.bytes@ == m@,
            None => r.result_metadata.type_ == MongoExtensionByteContainerType::kByteView
                && r.result_metadata.bytes@ == Seq::<u8>::empty(),
        },
{
    let meta = match metadata {
        Some(m) => MongoExtensionByteContainer { type_: MongoExtensionByteContainerType::kByteBuf, bytes: m },
        None => empty_view(),
    };
    MongoExtensionGetNextResult {
        code: MongoExtensionGetNextResultCode::kAdvanced,
        result_document: MongoExtensionByteContainer {
            type_: MongoExtensionByteContainerType::kByteBuf,
            bytes: document,
        },
        result_metadata: meta,
    }
}

/// The `get_next` result for one generator output: end of stream, or the row document (and
/// metadata, when present) encoded as BSON in owned buffers. An encoding failure is a
/// `FailedToParse` error; the result exists exactly when the document and the metadata encode.
pub fn generator_result(out: Next) -> (r: Result<MongoExtensionGetNextResult, ExtensionError>)
    ensures
        match out {
            Next::Eof => r matches Ok(res) && res.code == MongoExtensionGetNextResultCode::kEOF
                && res.result_document.type_ == MongoExtensionByteContainerType::kByteView
                && res.result_document.bytes@.len() == 0
                && res.result_metadata.type_ == MongoExtensionByteContainerType::kByteView
                && res.result_metadata.bytes@.len() == 0,
            Next::Advanced { document, metadata } => {
                &&& r is Ok <==> document_bson_encoding(document) is Some && match metadata {
                    Some(m) => document_bson_encoding(m) is Some,
                    None => true,
                }
                &&& r matches Ok(res) ==> {
                    &&& res.code == MongoExtensionGetNextResultCode::kAdvanced
                    &&& res.result_document.type_ == MongoExtensionByteContainerType::kByteBuf
                    &&& document_bson_encoding(document) == Some(res.result_document.bytes@)
                    &&& match metadata {
                        Some(m) => res.result_metadata.type_ == MongoExtensionByteContainerType::kByteBuf
                            && document_bson_encoding(m) == Some(res.result_metadata.bytes@),
                        None => res.result_metadata.type_ == MongoExtensionByteContainerType::kByteView
                            && res.result_metadata.bytes@.len() == 0,
                    }
                }
                &&& r matches Err(e) ==> e is FailedToParse
            },
        },
{
    match out {
        Next::Eof => Ok(eof_result()),
        Next::Advanced { document, metadata } => {
            let raw = match doc_to_bytes(&document) {
                Ok(b) => b,
                Err(e) => return Err(ExtensionError::FailedToParse(e.to_string())),
            };
            let meta = match metadata {
                None => None,
                Some(meta_doc) => match doc_to_bytes(&meta_doc) {
                    Ok(b) => Some(b),
                    Err(e) => return Err(ExtensionError::FailedToParse(e.to_string())),
                },
            };
            Ok(advanced_result(raw, meta))
        },
    }
}

} // verus!
