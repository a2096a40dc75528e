//! Messages for the host logger.
//!
//! Plain log lines carry their severity; debug lines carry their verbosity level instead.
//! Every message has code `0` and no attributes; its text is the UTF-8 bytes of the message.

use vstd::prelude::*;

use crate::sys::{
    MongoExtensionByteView, MongoExtensionLogAttributesArray, MongoExtensionLogMessage,
    MongoExtensionLogMessageSeverityOrLevel, MongoExtensionLogSeverity, MongoExtensionLogType,
};

verus! {

/// The severity-or-level field for a message of type `typ`.
pub open spec fn spec_severity_or_level(
    severity: MongoExtensionLogSeverity,
    typ: MongoExtensionLogType,
    debug_level: i32,
) -> MongoExtensionLogMessageSeverityOrLevel {
    match typ {
        MongoExtensionLogType::kDebug => MongoExtensionLogMessageSeverityOrLevel::Level(debug_level),
        MongoExtensionLogType::kLog => MongoExtensionLogMessageSeverityOrLevel::Severity(severity),
    }
}

/// True iff `m` is the message for `(severity, typ, debug_level, text)`.
pub open spec fn is_log_message(
    m: MongoExtensionLogMessage,
    severity: MongoExtensionLogSeverity,
    typ: MongoExtensionLogType,
    debug_level: i32,
    text: Seq<char>,
) -> bool {
    &&& m.code == 0
    &&& m.message.data@ == vstd::utf8::encode_utf8(text)
    &&& m.type_ == typ
    &&& m.attributes.elements@.len() == 0
    &&& m.severity_or_level == spec_severity_or_level(severity, typ, debug_level)
}

/// Builds the host log message for `message`.
pub fn log_with(
    severity: MongoExtensionLogSeverity,
    typ: MongoExtensionLogType,
    debug_level: i32,
    message: &str,
) -> (m: MongoExtensionLogMessage)
    ensures
        is_log_message(m, severity, typ, debug_level, message@),
{
    let bytes = message.as_bytes_vec();
    let sev_or = match typ {
        MongoExtensionLogType::kDebug => MongoExtensionLogMessageSeverityOrLevel::Level(debug_level),
        _ => MongoExtensionLogMessageSeverityOrLevel::Severity(severity),
    };
    MongoExtensionLogMessage {
        code: 0,
        message: MongoExtensionByteView { data: bytes },
        type_: typ,
        attributes: MongoExtensionLogAttributesArray { elements: Vec::new() },
        severity_or_level: sev_or,
    }
}

/// An info line.
pub fn log_info(message: &str) -> (m: MongoExtensionLogMessage)
    ensures
        is_log_message(m, MongoExtensionLogSeverity::kInfo, MongoExtensionLogType::kLog, 0, message@),
{
    log_with(MongoExtensionLogSeverity::kInfo, MongoExtensionLogType::kLog, 0, message)
}

/// A warning line.
pub fn log_warn(message: &str) -> (m: MongoExtensionLogMessage)
    ensures
        is_log_message(m, MongoExtensionLogSeverity::kWarning, MongoExtensionLogType::kLog, 0, message@),
{
    log_with(MongoExtensionLogSeverity::kWarning, MongoExtensionLogType::kLog, 0, message)
}

/// An error line.
pub fn log_error(message: &str) -> (m: MongoExtensionLogMessage)
    ensures
        is_log_message(m, MongoExtensionLogSeverity::kError, MongoExtensionLogType::kLog, 0, message@),
{
    log_with(MongoExtensionLogSeverity::kError, MongoExtensionLogType::kLog, 0, message)
}

/// A debug line at verbosity `level`.
pub fn log_debug(level: i32, message: &str) -> (m: MongoExtensionLogMessage)
    ensures
        is_log_message(m, MongoExtensionLogSeverity::kInfo, MongoExtensionLogType::kDebug, level, message@),
{
    log_with(MongoExtensionLogSeverity::kInfo, MongoExtensionLogType::kDebug, level, message)
}

} // verus!
