//! Status objects returned across the extension boundary.
//!
//! There are two kinds: the process-wide OK status (code `0`, no reason, `destroy` is a no-op)
//! and heap error statuses that carry a code and a reason string. The host reports through an
//! error status by setting its code and reason; the shared OK status keeps its code and reason.

use vstd::prelude::*;

use crate::sys::MONGO_EXTENSION_STATUS_OK;

verus! {

/// A status object: the OK singleton or an error with its code and reason.
#[derive(Debug, Clone, PartialEq, Eq)]
pub enum MongoExtensionStatus {
    Success,
    Error { code: i32, reason: String },
}

/// True iff `s` holds a NUL character (such a reason cannot be stored as a C string).
pub open spec fn has_nul(s: Seq<char>) -> bool {
    exists|i: int| 0 <= i < s.len() && s[i] == '\0'
}

/// The reason an error status stores for a requested reason: the reason itself, or the fixed
/// text `extension error` when the reason holds a NUL character.
pub open spec fn stored_reason(reason: Seq<char>) -> Seq<char> {
    if has_nul(reason) {
        "extension error"@
    } else {
        reason
    }
}

/// A reason without NUL is stored as given: a status reports exactly the reason it was made
/// with.
pub proof fn lemma_plain_reason_kept(reason: Seq<char>)
    requires
        !has_nul(reason),
    ensures
        stored_reason(reason) == reason,
{
}

/// Whatever reason is requested, the stored reason holds no NUL and can be handed out as a C
/// string.
pub proof fn lemma_stored_reason_has_no_nul(reason: Seq<char>)
    ensures
        !has_nul(stored_reason(reason)),
{
    if has_nul(reason) {
        reveal_strlit("extension error");
        assert(!has_nul("extension error"@));
    }
}

impl MongoExtensionStatus {
    /// Code reported by `get_code`.
    pub open spec fn spec_code(&self) -> i32 {
        match self {
            MongoExtensionStatus::Success => MONGO_EXTENSION_STATUS_OK,
            MongoExtensionStatus::Error { code, .. } => *code,
        }
    }

    /// Reason reported by `get_reason` (the OK status has none).
    pub open spec fn spec_reason(&self) -> Seq<char> {
        match self {
            MongoExtensionStatus::Success => Seq::empty(),
            MongoExtensionStatus::Error { reason, .. } => reason@,
        }
    }

    /// The status code.
    pub fn get_code(&self) -> (c: i32)
        ensures
            c == self.spec_code(),
    {
        match self {
            MongoExtensionStatus::Success => MONGO_EXTENSION_STATUS_OK,
            MongoExtensionStatus::Error { code, .. } => *code,
        }
    }

    /// The status reason (empty for the OK status).
    pub fn get_reason(&self) -> (r: String)
        ensures
            r@ == self.spec_reason(),
    {
        match self {
            MongoExtensionStatus::Success => String::new(),
            MongoExtensionStatus::Error { reason, .. } => reason.clone(),
        }
    }

    /// Records a new code on an error status (the host reports through it); the shared OK
    /// status stays as it is.
    pub fn set_code(&mut self, code: i32)
        ensures
            *old(self) is Success ==> *final(self) == *old(self),
            *old(self) is Error ==> *final(self) is Error && final(self).spec_code() == code
                && final(self).spec_reason() == old(self).spec_reason(),
    {
        if let MongoExtensionStatus::Error { code: c, .. } = self {
            *c = code;
        }
    }

    /// Records a new reason on an error status (a reason holding NUL is stored as
    /// `extension error`); the shared OK status stays as it is.
    pub fn set_reason(&mut self, reason: &str)
        ensures
            *old(self) is Success ==> *final(self) == *old(self),
            *old(self) is Error ==> *final(self) is Error && final(self).spec_code() == old(self).spec_code()
                && final(self).spec_reason() == stored_reason(reason@),
    {
        if let MongoExtensionStatus::Error { reason: r, .. } = self {
            *r = if contains_nul(reason) {
                String::from_str("extension error")
            } else {
                String::from_str(reason)
            };
        }
    }

    /// True iff the status reports success.
    pub fn is_ok(&self) -> (b: bool)
        ensures
            b == (self.spec_code() == MONGO_EXTENSION_STATUS_OK),
    {
        self.get_code() == MONGO_EXTENSION_STATUS_OK
    }
}

/// The process-wide OK status.
pub fn status_ok() -> (s: MongoExtensionStatus)
    ensures
        s is Success,
        s.spec_code() == MONGO_EXTENSION_STATUS_OK,
        s.spec_reason() == Seq::<char>::empty(),
{
    MongoExtensionStatus::Success
}

/// True iff `s` holds a NUL character.
pub fn contains_nul(s: &str) -> (b: bool)
    ensures
        b == has_nul(s@),
{
    let n = s.unicode_len();
    let mut i: usize = 0;
    while i < n
        invariant
            n == s@.len(),
            i <= n,
            forall|j: int| 0 <= j < i ==> s@[j] != '\0',
        decreases n - i,
    {
        if s.get_char(i) == '\0' {
            return true;
        }
        i = i + 1;
    }
    false
}

/// An error status with `code` and `reason` (a reason holding NUL is replaced by
/// `extension error`).
pub fn new_error_status(code: i32, reason: &str) -> (s: MongoExtensionStatus)
    ensures
        s matches MongoExtensionStatus::Error { code: c, reason: r } && c == code && r@ == stored_reason(reason@),
        s.spec_code() == code,
        s.spec_reason() == stored_reason(reason@),
{
    let stored = if contains_nul(reason) {
        String::from_str("extension error")
    } else {
        String::from_str(reason)
    };
    MongoExtensionStatus::Error { code, reason: stored }
}

} // verus!
