//! Extension options captured during extension `initialize`.

use vstd::prelude::*;

verus! {

/// Snapshot of the extension options bytes the host handed over at `initialize`.
#[derive(Debug, Clone, PartialEq, Eq)]
pub struct ExtensionOptionsCache {
    snapshot: Option<Vec<u8>>,
}

impl ExtensionOptionsCache {
    /// The cached options, if any.
    pub closed spec fn spec_snapshot(&self) -> Option<Seq<u8>> {
        match self.snapshot {
            Some(v) => Some(v@),
            None => None,
        }
    }

    /// An empty cache.
    pub fn new() -> (c: Self)
        ensures
            c.spec_snapshot() is None,
    {
        ExtensionOptionsCache { snapshot: None }
    }

    /// Copies the options the host handed over; an absent or empty view means the host gave no
    /// options, and none are cached.
    pub fn cache_extension_options(&mut self, options: &[u8])
        ensures
            final(self).spec_snapshot() == (if options@.len() == 0 {
                None
            } else {
                Some(options@)
            }),
    {
        self.snapshot = if options.len() == 0 {
            None
        } else {
            Some(vstd::slice::slice_to_vec(options))
        };
    }

    /// Snapshot of extension options bytes (a copy), if options were cached.
    pub fn extension_options_snapshot(&self) -> (r: Option<Vec<u8>>)
        ensures
            match r {
                Some(v) => self.spec_snapshot() == Some(v@),
                None => self.spec_snapshot() is None,
            },
    {
        match &self.snapshot {
            Some(v) => Some(v.clone()),
            None => None,
        }
    }

    /// Clears the cached extension options snapshot (for integration tests and harnesses only).
    pub fn reset_extension_options_snapshot_for_tests(&mut self)
        ensures
            final(self).spec_snapshot() is None,
    {
        self.snapshot = None;
    }
}

} // verus!
