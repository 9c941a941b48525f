//! The count of candidates that the workers of one crawl share.

use vstd::prelude::*;
use std::sync::atomic::AtomicUsize;
use std::sync::atomic::Ordering;

verus! {

/// The number of candidates that a crawl has handed to the index so far,
/// kept by all its workers together. A worker reads it before it takes a
/// file and adds to it after the file, so what it reads may be behind.
pub struct Budget {
    lines_in_mem: AtomicUsize,
}

impl Budget {
    /// A count of zero.
    pub fn new() -> Budget {
        Budget { lines_in_mem: AtomicUsize::new(0) }
    }

    /// The count as this worker sees it now.
    pub fn used(&self) -> usize {
        self.lines_in_mem.load(Ordering::Relaxed)
    }

    /// Adds the candidates of one file to the count.
    pub fn charge(&self, lines: usize) {
        self.lines_in_mem.fetch_add(lines, Ordering::Relaxed);
    }
}

} // verus!
