use vstd::prelude::*;

verus! {

/// Polling interval of the clipboard watch, in milliseconds.
pub const DEFAULT_POLL_MS: u64 = 500;

/// Hash that std's `DefaultHasher::new()` gives a byte slice.
pub uninterp spec fn content_hash(data: Seq<u8>) -> u64;

/// Relies on `DefaultHasher::new()` (fixed keys) fed with `data.hash(..)`:
/// the hash depends on the bytes alone.
#[verifier::external_body]
pub(crate) fn calculate_hash(data: &[u8]) -> (r: u64)
    ensures
        r == content_hash(data@),
{
    let mut hasher = std::collections::hash_map::DefaultHasher::new();
    std::hash::Hash::hash(data, &mut hasher);
    std::hash::Hasher::finish(&hasher)
}

/// Decides which clipboard contents start a dispatch: only a content whose
/// hash differs from the one seen last.
#[derive(Debug, Clone, Copy)]
pub struct ClipboardWatch {
    last_hash: Option<u64>,
}

impl ClipboardWatch {
    pub closed spec fn spec_last(&self) -> Option<u64> {
        self.last_hash
    }

    /// A watch that has seen nothing yet.
    pub fn new() -> (r: Self)
        ensures
            r.spec_last() is None,
    {
        ClipboardWatch { last_hash: None }
    }

    /// Records a polled content hash; `true` when it is new and must be uploaded.
    pub fn observe(&mut self, hash: u64) -> (r: bool)
        ensures
            r == (old(self).spec_last() != Some(hash)),
            final(self).spec_last() == Some(hash),
    {
        let is_new = match self.last_hash {
            Some(h) => h != hash,
            None => true,
        };
        self.last_hash = Some(hash);
        is_new
    }

    /// Hashes polled content and records it; `true` when it changed.
    pub fn observe_content(&mut self, data: &[u8]) -> (r: bool)
        ensures
            r == (old(self).spec_last() != Some(content_hash(data@))),
            final(self).spec_last() == Some(content_hash(data@)),
    {
        let h = calculate_hash(data);
        self.observe(h)
    }
}

} // verus!
