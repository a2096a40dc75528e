//! Execution context passed to stage hooks: logging, cached extension options, metrics, and the
//! binding to the host query context.
//!
//! Stage code talks to the context; the context records what is to be sent to the host (log
//! lines, metric updates), and the caller that bound the context forwards them to the host once
//! the hook returns. Without a bound metrics object metric updates are dropped, as they would be
//! without a host.

use vstd::prelude::*;

use crate::error::ExtensionError;
use crate::extension_log;
use crate::status::MongoExtensionStatus;
use crate::sys::{MongoExtensionLogMessage, MONGO_EXTENSION_STATUS_OK};

verus! {

/// One update of the stage's BSON metrics.
#[derive(Debug, Clone, PartialEq, Eq)]
pub enum MetricUpdate {
    /// Add `delta` to the 64-bit integer under `key` (a missing or non-64-bit value counts as 0;
    /// the sum saturates).
    Inc { key: String, delta: i64 },
    /// Store `elapsed_ns` under `key` as a 64-bit integer (overwrites the previous value).
    RecordTime { key: String, elapsed_ns: u64 },
}

/// Context available during stage `open` / `next` / `transform` callbacks.
pub struct StageContext {
    query_ctx: Option<usize>,
    metrics: Option<usize>,
    extension_options: Option<Vec<u8>>,
    pending_logs: Vec<MongoExtensionLogMessage>,
    sink: OperationMetricsSink,
}

impl StageContext {
    /// Address of the bound host query execution context, if any.
    pub closed spec fn spec_query_ctx(&self) -> Option<usize> {
        self.query_ctx
    }

    /// Address of the bound host metrics object, if any.
    pub closed spec fn spec_metrics(&self) -> Option<usize> {
        self.metrics
    }

    /// Extension options captured at initialize, if the caller attached them.
    pub closed spec fn spec_extension_options(&self) -> Option<Seq<u8>> {
        match self.extension_options {
            Some(v) => Some(v@),
            None => None,
        }
    }

    /// Log lines recorded and not yet handed to the host.
    pub closed spec fn spec_pending_logs(&self) -> Seq<MongoExtensionLogMessage> {
        self.pending_logs@
    }

    /// The metrics sink of the context.
    pub closed spec fn spec_sink(&self) -> OperationMetricsSink {
        self.sink
    }

    /// Metric updates recorded and not yet applied.
    pub open spec fn spec_pending_metrics(&self) -> Seq<MetricUpdate> {
        self.spec_sink().spec_pending()
    }

    /// Constructs an empty context (no host execution binding yet).
    pub fn new() -> (c: Self)
        ensures
            c.spec_query_ctx() is None,
            c.spec_metrics() is None,
            c.spec_extension_options() is None,
            c.spec_pending_logs().len() == 0,
            c.spec_pending_metrics().len() == 0,
            !c.spec_sink().spec_enabled(),
    {
        StageContext {
            query_ctx: None,
            metrics: None,
            extension_options: None,
            pending_logs: Vec::new(),
            sink: OperationMetricsSink { enabled: false, pending: Vec::new() },
        }
    }

    /// Binds the host query context and metrics object (given by address; address `0` means
    /// none) for one `get_next` / generator invocation.
    pub fn bind_execution(&mut self, query_ctx: usize, metrics: usize)
        ensures
            final(self).spec_query_ctx() == (if query_ctx == 0 { None } else { Some(query_ctx) }),
            final(self).spec_metrics() == (if metrics == 0 { None } else { Some(metrics) }),
            final(self).spec_extension_options() == old(self).spec_extension_options(),
            final(self).spec_pending_logs() == old(self).spec_pending_logs(),
            final(self).spec_pending_metrics() == old(self).spec_pending_metrics(),
            final(self).spec_sink().spec_enabled() == (metrics != 0),
    {
        self.query_ctx = if query_ctx == 0 { None } else { Some(query_ctx) };
        self.metrics = if metrics == 0 { None } else { Some(metrics) };
        self.sink.enabled = metrics != 0;
    }

    /// Clears the execution binding.
    pub fn unbind_execution(&mut self)
        ensures
            final(self).spec_query_ctx() is None,
            final(self).spec_metrics() is None,
            final(self).spec_extension_options() == old(self).spec_extension_options(),
            final(self).spec_pending_logs() == old(self).spec_pending_logs(),
            final(self).spec_pending_metrics() == old(self).spec_pending_metrics(),
            !final(self).spec_sink().spec_enabled(),
    {
        self.query_ctx = None;
        self.metrics = None;
        self.sink.enabled = false;
    }

    /// Address of the bound host query context, if any.
    pub fn query_context(&self) -> (q: Option<usize>)
        ensures
            q == self.spec_query_ctx(),
    {
        self.query_ctx
    }

    /// Address of the bound host metrics object, if any.
    pub fn metrics_object(&self) -> (m: Option<usize>)
        ensures
            m == self.spec_metrics(),
    {
        self.metrics
    }

    /// Attaches the extension options captured during extension `initialize`.
    pub fn attach_extension_options(&mut self, options: Option<Vec<u8>>)
        ensures
            final(self).spec_extension_options() == (match options {
                Some(v) => Some(v@),
                None => None::<Seq<u8>>,
            }),
            final(self).spec_query_ctx() == old(self).spec_query_ctx(),
            final(self).spec_metrics() == old(self).spec_metrics(),
            final(self).spec_pending_logs() == old(self).spec_pending_logs(),
            final(self).spec_sink() == old(self).spec_sink(),
    {
        self.extension_options = options;
    }

    /// Extension options YAML / config blob captured during extension `initialize` (a copy).
    ///
    /// Returns `None` if the host did not provide options or none were attached.
    pub fn extension_options_raw(&self) -> (r: Option<Vec<u8>>)
        ensures
            match r {
                Some(v) => self.spec_extension_options() == Some(v@),
                None => self.spec_extension_options() is None,
            },
    {
        match &self.extension_options {
            Some(v) => Some(v.clone()),
            None => None,
        }
    }

    /// Log at **info** severity.
    /// The line is queued in the context; the caller that bound the context hands the queued lines to
    /// the host logger, oldest first, when the hook returns (or fails).
    pub fn log_info(&mut self, message: &str)
        ensures
            final(self).spec_pending_logs().len() == old(self).spec_pending_logs().len() + 1,
            final(self).spec_pending_logs().drop_last() == old(self).spec_pending_logs(),
            extension_log::is_log_message(final(self).spec_pending_logs().last(),
                crate::sys::MongoExtensionLogSeverity::kInfo, crate::sys::MongoExtensionLogType::kLog, 0, message@),
            final(self).spec_query_ctx() == old(self).spec_query_ctx(),
            final(self).spec_metrics() == old(self).spec_metrics(),
            final(self).spec_extension_options() == old(self).spec_extension_options(),
            final(self).spec_sink() == old(self).spec_sink(),
    {
        let m = extension_log::log_info(message);
        self.pending_logs.push(m);
    }

    /// Log at **debug** type with numeric `level` (host-defined verbosity).
    /// The line is queued in the context; the caller that bound the context hands the queued lines to
    /// the host logger, oldest first, when the hook returns (or fails).
    pub fn log_debug(&mut self, level: i32, message: &str)
        ensures
            final(self).spec_pending_logs().len() == old(self).spec_pending_logs().len() + 1,
            final(self).spec_pending_logs().drop_last() == old(self).spec_pending_logs(),
            extension_log::is_log_message(final(self).spec_pending_logs().last(),
                crate::sys::MongoExtensionLogSeverity::kInfo, crate::sys::MongoExtensionLogType::kDebug, level, message@),
            final(self).spec_query_ctx() == old(self).spec_query_ctx(),
            final(self).spec_metrics() == old(self).spec_metrics(),
            final(self).spec_extension_options() == old(self).spec_extension_options(),
            final(self).spec_sink() == old(self).spec_sink(),
    {
        let m = extension_log::log_debug(level, message);
        self.pending_logs.push(m);
    }

    /// Log at **warning** severity.
    /// The line is queued in the context; the caller that bound the context hands the queued lines to
    /// the host logger, oldest first, when the hook returns (or fails).
    pub fn log_warn(&mut self, message: &str)
        ensures
            final(self).spec_pending_logs().len() == old(self).spec_pending_logs().len() + 1,
            final(self).spec_pending_logs().drop_last() == old(self).spec_pending_logs(),
            extension_log::is_log_message(final(self).spec_pending_logs().last(),
                crate::sys::MongoExtensionLogSeverity::kWarning, crate::sys::MongoExtensionLogType::kLog, 0, message@),
            final(self).spec_query_ctx() == old(self).spec_query_ctx(),
            final(self).spec_metrics() == old(self).spec_metrics(),
            final(self).spec_extension_options() == old(self).spec_extension_options(),
            final(self).spec_sink() == old(self).spec_sink(),
    {
        let m = extension_log::log_warn(message);
        self.pending_logs.push(m);
    }

    /// Log at **error** severity.
    /// The line is queued in the context; the caller that bound the context hands the queued lines to
    /// the host logger, oldest first, when the hook returns (or fails).
    pub fn log_error(&mut self, message: &str)
        ensures
            final(self).spec_pending_logs().len() == old(self).spec_pending_logs().len() + 1,
            final(self).spec_pending_logs().drop_last() == old(self).spec_pending_logs(),
            extension_log::is_log_message(final(self).spec_pending_logs().last(),
                crate::sys::MongoExtensionLogSeverity::kError, crate::sys::MongoExtensionLogType::kLog, 0, message@),
            final(self).spec_query_ctx() == old(self).spec_query_ctx(),
            final(self).spec_metrics() == old(self).spec_metrics(),
            final(self).spec_extension_options() == old(self).spec_extension_options(),
            final(self).spec_sink() == old(self).spec_sink(),
    {
        let m = extension_log::log_error(message);
        self.pending_logs.push(m);
    }

    /// Hands over the recorded log lines, oldest first, and forgets them.
    pub fn take_pending_logs(&mut self) -> (r: Vec<MongoExtensionLogMessage>)
        ensures
            r@ == old(self).spec_pending_logs(),
            final(self).spec_pending_logs().len() == 0,
            final(self).spec_query_ctx() == old(self).spec_query_ctx(),
            final(self).spec_metrics() == old(self).spec_metrics(),
            final(self).spec_extension_options() == old(self).spec_extension_options(),
            final(self).spec_sink() == old(self).spec_sink(),
    {
        let mut out = Vec::new();
        std::mem::swap(&mut out, &mut self.pending_logs);
        out
    }

    /// Hands over the recorded metric updates, oldest first, and forgets them.
    pub fn take_pending_metrics(&mut self) -> (r: Vec<MetricUpdate>)
        ensures
            r@ == old(self).spec_pending_metrics(),
            final(self).spec_pending_metrics().len() == 0,
            final(self).spec_sink().spec_enabled() == old(self).spec_sink().spec_enabled(),
            final(self).spec_query_ctx() == old(self).spec_query_ctx(),
            final(self).spec_metrics() == old(self).spec_metrics(),
            final(self).spec_extension_options() == old(self).spec_extension_options(),
            final(self).spec_pending_logs() == old(self).spec_pending_logs(),
    {
        let mut out = Vec::new();
        std::mem::swap(&mut out, &mut self.sink.pending);
        out
    }

    /// Writable view of BSON metrics for this stage (updates are dropped if no metrics object is
    /// bound).
    pub fn metrics(&mut self) -> (s: &mut OperationMetricsSink)
        ensures
            *s == old(self).spec_sink(),
            final(self).spec_sink() == *final(s),
            final(self).spec_query_ctx() == old(self).spec_query_ctx(),
            final(self).spec_metrics() == old(self).spec_metrics(),
            final(self).spec_extension_options() == old(self).spec_extension_options(),
            final(self).spec_pending_logs() == old(self).spec_pending_logs(),
    {
        &mut self.sink
    }
}

impl Default for StageContext {
    /// Same as [`StageContext::new`].
    fn default() -> (c: Self)
        ensures
            c.spec_query_ctx() is None,
            c.spec_metrics() is None,
            c.spec_extension_options() is None,
            c.spec_pending_logs().len() == 0,
            c.spec_pending_metrics().len() == 0,
            !c.spec_sink().spec_enabled(),
    {
        Self::new()
    }
}

/// Incremental updates to the stage's metrics document.
pub struct OperationMetricsSink {
    enabled: bool,
    pending: Vec<MetricUpdate>,
}

impl OperationMetricsSink {
    /// Whether updates reach a bound metrics object.
    pub closed spec fn spec_enabled(&self) -> bool {
        self.enabled
    }

    /// The updates recorded and not yet applied.
    pub closed spec fn spec_pending(&self) -> Seq<MetricUpdate> {
        self.pending@
    }

    /// True iff `u` adds `delta` under `key`.
    pub open spec fn is_inc(u: MetricUpdate, key: Seq<char>, delta: i64) -> bool {
        u matches MetricUpdate::Inc { key: k, delta: d } && k@ == key && d == delta
    }

    /// True iff `u` stores `elapsed_ns` under `key`.
    pub open spec fn is_record_time(u: MetricUpdate, key: Seq<char>, elapsed_ns: u64) -> bool {
        u matches MetricUpdate::RecordTime { key: k, elapsed_ns: e } && k@ == key && e == elapsed_ns
    }

    /// Adds `delta` to the signed integer stored at `key` (defaults missing keys to `0`).
    /// The update is queued; the caller that bound the context applies the
    /// queued updates, in order, to the bound metrics object when the hook returns (or fails).
    pub fn inc(&mut self, key: &str, delta: i64)
        ensures
            final(self).spec_enabled() == old(self).spec_enabled(),
            old(self).spec_enabled() ==> final(self).spec_pending().len() == old(self).spec_pending().len() + 1
                && final(self).spec_pending().drop_last() == old(self).spec_pending()
                && Self::is_inc(final(self).spec_pending().last(), key@, delta),
            !old(self).spec_enabled() ==> final(self).spec_pending() == old(self).spec_pending(),
    {
        if self.enabled {
            self.pending.push(MetricUpdate::Inc { key: String::from_str(key), delta });
        }
    }

    /// Stores `elapsed_ns` for `key` (overwrites previous value).
    /// The update is queued; the caller that bound the context applies the
    /// queued updates, in order, to the bound metrics object when the hook returns (or fails).
    pub fn record_time(&mut self, key: &str, elapsed_ns: u64)
        ensures
            final(self).spec_enabled() == old(self).spec_enabled(),
            old(self).spec_enabled() ==> final(self).spec_pending().len() == old(self).spec_pending().len() + 1
                && final(self).spec_pending().drop_last() == old(self).spec_pending()
                && Self::is_record_time(final(self).spec_pending().last(), key@, elapsed_ns),
            !old(self).spec_enabled() ==> final(self).spec_pending() == old(self).spec_pending(),
    {
        if self.enabled {
            self.pending.push(MetricUpdate::RecordTime { key: String::from_str(key), elapsed_ns });
        }
    }
}

/// A status object read back from the host: its code and reason bytes.
#[derive(Debug, Clone, PartialEq, Eq)]
pub struct HostStatusReply {
    pub code: i32,
    pub reason: Vec<u8>,
}

/// The text `String::from_utf8_lossy` makes of `bytes` (invalid sequences become U+FFFD).
pub uninterp spec fn utf8_lossy(bytes: Seq<u8>) -> Seq<char>;

/// `String::from_utf8_lossy`: decodes `bytes`, replacing invalid UTF-8 sequences with U+FFFD.
/// Its result is named; for valid UTF-8 it is the decoded text, as the std documentation says.
#[verifier::external_body]
fn string_from_utf8_lossy(bytes: &[u8]) -> (s: String)
    ensures
        s@ == utf8_lossy(bytes@),
        vstd::utf8::valid_utf8(bytes@) ==> s@ == vstd::utf8::decode_utf8(bytes@),
{
    String::from_utf8_lossy(bytes).into_owned()
}

/// The message of a host status: `fallback` for an empty reason, else the reason decoded.
pub open spec fn spec_host_message(reason: Seq<u8>, fallback: Seq<char>) -> Seq<char> {
    if reason.len() == 0 {
        fallback
    } else {
        utf8_lossy(reason)
    }
}

fn host_message(reason: &[u8], fallback: &str) -> (m: String)
    ensures
        m@ == spec_host_message(reason@, fallback@),
{
    if reason.len() == 0 {
        String::from_str(fallback)
    } else {
        string_from_utf8_lossy(reason)
    }
}

/// True iff `e` is the host error with `code` and message `msg`.
pub open spec fn is_host_error(e: ExtensionError, code: i32, msg: Seq<char>) -> bool {
    e matches ExtensionError::HostError { code: c, reason } && c == code && reason@ == msg
}

/// The deadline reported by the host: no status means success; an OK status means success; any
/// other code is a host error whose message is the reason (or a fixed text for an empty reason).
pub fn deadline_from_host(reply: Option<HostStatusReply>, timestamp_ms: i64) -> (r: Result<Option<i64>, ExtensionError>)
    ensures
        match reply {
            None => r == Ok::<Option<i64>, ExtensionError>(Some(timestamp_ms)),
            Some(st) => if st.code == MONGO_EXTENSION_STATUS_OK {
                r == Ok::<Option<i64>, ExtensionError>(Some(timestamp_ms))
            } else {
                r matches Err(e) && is_host_error(e, st.code,
                    spec_host_message(st.reason@, "get_deadline_timestamp_ms failed"@))
            },
        },
{
    match reply {
        None => Ok(Some(timestamp_ms)),
        Some(st) => {
            let msg = host_message(st.reason.as_slice(), "get_deadline_timestamp_ms failed");
            if st.code == MONGO_EXTENSION_STATUS_OK {
                Ok(Some(timestamp_ms))
            } else {
                Err(ExtensionError::HostError { code: st.code, reason: msg })
            }
        },
    }
}

/// The interrupt check as a host status reports it: an OK code means continue; any other code is
/// a host error whose message is the reason (or `check_for_interrupt` for an empty reason).
pub fn interrupt_from_host(reply: HostStatusReply) -> (r: Result<(), ExtensionError>)
    ensures
        reply.code == MONGO_EXTENSION_STATUS_OK ==> r == Ok::<(), ExtensionError>(()),
        reply.code != MONGO_EXTENSION_STATUS_OK ==> (r matches Err(e) && is_host_error(e, reply.code,
            spec_host_message(reply.reason@, "check_for_interrupt"@))),
{
    let msg = host_message(reply.reason.as_slice(), "check_for_interrupt");
    if reply.code == MONGO_EXTENSION_STATUS_OK {
        Ok(())
    } else {
        Err(ExtensionError::HostError { code: reply.code, reason: msg })
    }
}

/// The message of an interrupt reported through an extension-owned status: its reason, or
/// `check_for_interrupt` when the reason is empty.
pub open spec fn filled_interrupt_message(filled: MongoExtensionStatus) -> Seq<char> {
    if filled.spec_reason().len() == 0 {
        "check_for_interrupt"@
    } else {
        filled.spec_reason()
    }
}

/// What the interrupt check gives for the status the host returned and the extension-owned
/// status the host filled through its setters.
pub open spec fn interrupt_outcome_ok(
    returned: Option<HostStatusReply>,
    filled: MongoExtensionStatus,
    r: Result<(), ExtensionError>,
) -> bool {
    match returned {
        Some(st) => if st.code != MONGO_EXTENSION_STATUS_OK {
            r matches Err(e) && is_host_error(e, st.code, spec_host_message(st.reason@, "check_for_interrupt"@))
        } else {
            filled_interrupt_ok(filled, r)
        },
        None => filled_interrupt_ok(filled, r),
    }
}

/// What the interrupt check gives for the filled status alone.
pub open spec fn filled_interrupt_ok(filled: MongoExtensionStatus, r: Result<(), ExtensionError>) -> bool {
    if filled.spec_code() == MONGO_EXTENSION_STATUS_OK {
        r is Ok
    } else {
        r matches Err(e) && is_host_error(e, filled.spec_code(), filled_interrupt_message(filled))
    }
}

/// The interrupt check: the host answers through the status it returns and through the
/// extension-owned status it fills with `set_code` / `set_reason`. A failing returned status is
/// reported; otherwise a non-OK code recorded on the filled status is the host error with the
/// recorded reason; otherwise the operation goes on.
pub fn check_interrupt_outcome(returned: Option<HostStatusReply>, filled: &MongoExtensionStatus) -> (r: Result<
    (),
    ExtensionError,
>)
    ensures
        interrupt_outcome_ok(returned, *filled, r),
{
    if let Some(st) = returned {
        if st.code != MONGO_EXTENSION_STATUS_OK {
            return interrupt_from_host(st);
        }
    }
    let code = filled.get_code();
    if code == MONGO_EXTENSION_STATUS_OK {
        return Ok(());
    }
    let reason = filled.get_reason();
    let msg = if reason.as_str().unicode_len() == 0 {
        String::from_str("check_for_interrupt")
    } else {
        reason
    };
    Err(ExtensionError::HostError { code, reason: msg })
}

/// When the host's own call succeeds (no status returned, or one with the OK code), the filled
/// status alone decides: a non-OK code recorded on it is the host error with that code and its
/// reason (or `check_for_interrupt` when the reason is empty), and an OK code lets the operation
/// go on.
pub proof fn lemma_filled_status_decides(
    returned: Option<HostStatusReply>,
    filled: MongoExtensionStatus,
    r: Result<(), ExtensionError>,
)
    requires
        match returned {
            Some(st) => st.code == MONGO_EXTENSION_STATUS_OK,
            None => true,
        },
        interrupt_outcome_ok(returned, filled, r),
    ensures
        filled.spec_code() == MONGO_EXTENSION_STATUS_OK ==> r is Ok,
        filled.spec_code() != MONGO_EXTENSION_STATUS_OK ==> (r matches Err(e) && is_host_error(
            e,
            filled.spec_code(),
            if filled.spec_reason().len() == 0 {
                "check_for_interrupt"@
            } else {
                filled.spec_reason()
            },
        )),
        interrupt_outcome_ok(None, filled, r),
{
}

/// An interrupt the host records on the filled status with `set_code` and `set_reason` comes back
/// as the host error with that code and the stored reason.
pub proof fn lemma_recorded_interrupt_is_reported(
    filled: MongoExtensionStatus,
    code: i32,
    reason: Seq<char>,
    r: Result<(), ExtensionError>,
)
    requires
        filled is Error,
        filled.spec_code() == code,
        filled.spec_reason() == crate::status::stored_reason(reason),
        code != MONGO_EXTENSION_STATUS_OK,
        interrupt_outcome_ok(None, filled, r),
    ensures
        r matches Err(e) && is_host_error(
            e,
            code,
            if crate::status::stored_reason(reason).len() == 0 {
                "check_for_interrupt"@
            } else {
                crate::status::stored_reason(reason)
            },
        ),
{
}

} // verus!
