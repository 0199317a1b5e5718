//! The handle of a background download that caches a whole translation.

use vstd::prelude::*;
use std::sync::atomic::{AtomicBool, AtomicUsize, Ordering};
use std::sync::Arc;

verus! {

/// Progress counters shared with the download task.
pub struct DownloadHandle {
    pub translation: String,
    pub completed: Arc<AtomicUsize>,
    pub total: usize,
    pub cancel: Arc<AtomicBool>,
    pub done: Arc<AtomicBool>,
}

impl DownloadHandle {
    /// Whether the download task has finished. The flag is set by another
    /// task, so nothing is known of the answer in advance.
    pub fn is_done(&self) -> bool {
        self.done.load(Ordering::Relaxed)
    }

    /// Chapters handled so far, and the total to handle.
    pub fn progress(&self) -> (r: (usize, usize))
        ensures
            r.1 == self.total,
    {
        (self.completed.load(Ordering::Relaxed), self.total)
    }
}

} // verus!
