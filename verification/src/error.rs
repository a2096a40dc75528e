//! SDK error type for stage logic, convertible to host status objects.

use vstd::prelude::*;

use crate::status::{new_error_status, stored_reason, MongoExtensionStatus};
use crate::sys::MONGO_EXTENSION_STATUS_RUNTIME_ERROR;

verus! {

/// Errors produced by stage logic and BSON parsing, convertible to host status objects.
#[derive(Debug, Clone, PartialEq, Eq)]
pub enum ExtensionError {
    /// Invalid user input or stage arguments (e.g. wrong shape or disallowed value).
    BadValue(String),
    /// BSON encoding or decoding failed.
    FailedToParse(String),
    /// Extension runtime failure (logic error, I/O, etc.).
    Runtime(String),
    /// Error reported by the host with an explicit code.
    HostError {
        /// Host-specific error code (non-zero for failures).
        code: i32,
        /// Human-readable reason from the host.
        reason: String,
    },
}

/// SDK result type for typed stage APIs (`Err` is always [`ExtensionError`]).
pub type Result<T> = core::result::Result<T, ExtensionError>;

impl ExtensionError {
    /// The text the error carries (its display form).
    pub open spec fn spec_message(&self) -> Seq<char> {
        match self {
            ExtensionError::BadValue(s) => s@,
            ExtensionError::FailedToParse(s) => s@,
            ExtensionError::Runtime(s) => s@,
            ExtensionError::HostError { reason, .. } => reason@,
        }
    }

    /// Status code handed to the host for this error.
    pub open spec fn spec_status_code(&self) -> i32 {
        match self {
            ExtensionError::HostError { code, .. } => *code,
            _ => MONGO_EXTENSION_STATUS_RUNTIME_ERROR,
        }
    }

    /// Status reason handed to the host for this error.
    pub open spec fn spec_status_reason(&self) -> Seq<char> {
        match self {
            ExtensionError::BadValue(s) => "bad value: "@ + s@,
            ExtensionError::FailedToParse(s) => "failed to parse: "@ + s@,
            ExtensionError::Runtime(s) => s@,
            ExtensionError::HostError { reason, .. } => reason@,
        }
    }

    /// Status code returned to the host via [`into_raw_status`](ExtensionError::into_raw_status).
    pub fn status_code(&self) -> (c: i32)
        ensures
            c == self.spec_status_code(),
    {
        match self {
            ExtensionError::HostError { code, .. } => *code,
            ExtensionError::BadValue(_)
            | ExtensionError::FailedToParse(_)
            | ExtensionError::Runtime(_) => MONGO_EXTENSION_STATUS_RUNTIME_ERROR,
        }
    }

    /// Message stored on the host status object.
    pub fn status_reason(&self) -> (r: String)
        ensures
            r@ == self.spec_status_reason(),
    {
        match self {
            ExtensionError::BadValue(s) => {
                let mut r = String::from_str("bad value: ");
                r.append(s.as_str());
                r
            },
            ExtensionError::FailedToParse(s) => {
                let mut r = String::from_str("failed to parse: ");
                r.append(s.as_str());
                r
            },
            ExtensionError::Runtime(s) => s.clone(),
            ExtensionError::HostError { reason, .. } => reason.clone(),
        }
    }

    /// The display form of the error: the text it carries.
    pub fn to_string(&self) -> (r: String)
        ensures
            r@ == self.spec_message(),
    {
        match self {
            ExtensionError::BadValue(s) => s.clone(),
            ExtensionError::FailedToParse(s) => s.clone(),
            ExtensionError::Runtime(s) => s.clone(),
            ExtensionError::HostError { reason, .. } => reason.clone(),
        }
    }

    /// Converts into an error status object for returning across the extension boundary.
    pub fn into_raw_status(self) -> (s: MongoExtensionStatus)
        ensures
            s matches MongoExtensionStatus::Error { code, reason }
                && code == self.spec_status_code()
                && reason@ == stored_reason(self.spec_status_reason()),
            s.spec_code() == self.spec_status_code(),
            s.spec_reason() == stored_reason(self.spec_status_reason()),
    {
        let code = self.status_code();
        let reason = self.status_reason();
        new_error_status(code, reason.as_str())
    }
}

/// Every error but a host error reaches the host with the runtime-error code, so no error is
/// ever reported as success unless the host itself gave that code.
pub proof fn lemma_errors_report_failure(e: ExtensionError)
    ensures
        !(e is HostError) ==> e.spec_status_code() == MONGO_EXTENSION_STATUS_RUNTIME_ERROR,
        e.spec_status_code() == crate::sys::MONGO_EXTENSION_STATUS_OK ==> (e matches ExtensionError::HostError {
            code,
            ..
        } && code == crate::sys::MONGO_EXTENSION_STATUS_OK),
        e matches ExtensionError::HostError { code, .. } ==> e.spec_status_code() == code,
{
}

} // verus!
