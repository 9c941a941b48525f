//! The candidate record: the unit of data that the match index stores.

use vstd::prelude::*;

verus! {

/// One line of one file, as it is handed to the match index.
#[derive(Debug)]
pub struct CandidateLine {
    /// Path of the file, relative to the working directory where that is possible.
    pub path: String,
    /// The normalized text of the line.
    pub line: String,
    /// Position of the line in its file, counted from 1.
    pub line_number: usize,
}

/// What a [`CandidateLine`] stands for in contracts.
pub ghost struct CandidateView {
    pub path: Seq<char>,
    pub line: Seq<char>,
    pub line_number: nat,
}

impl View for CandidateLine {
    type V = CandidateView;

    open spec fn view(&self) -> CandidateView {
        CandidateView {
            path: self.path@,
            line: self.line@,
            line_number: self.line_number as nat,
        }
    }
}

impl CandidateLine {
    pub fn new(path: String, line: String, line_number: usize) -> (candidate: CandidateLine)
        ensures
            candidate.path == path,
            candidate.line == line,
            candidate.line_number == line_number,
    {
        CandidateLine { path, line, line_number }
    }
}

} // verus!
