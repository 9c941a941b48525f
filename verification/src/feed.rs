//! The producer side of a channel: candidates on their way into the index.

use vstd::prelude::*;
use vstd::string::StrSliceExecFns;
use crate::candidate::CandidateLine;
use crate::candidate::CandidateView;
use crate::index::clone_injector;
use crate::index::push_candidate;
use nucleo::Injector;

verus! {

/// The index takes a text of at most `u32::MAX` characters.
pub open spec fn fits_index(text: Seq<char>) -> bool {
    text.len() <= u32::MAX
}

/// A handle through which one producer hands candidates to the index of a
/// channel. It keeps account of what it has handed over.
pub struct Feed {
    injector: Injector<CandidateLine>,
    sent: Ghost<Seq<CandidateView>>,
}

impl Feed {
    /// The candidates handed to the index through this handle, in order.
    pub closed spec fn sent(&self) -> Seq<CandidateView> {
        self.sent@
    }

    pub(crate) fn new(injector: Injector<CandidateLine>) -> (feed: Feed)
        ensures
            feed.sent() == Seq::<CandidateView>::empty(),
    {
        Feed { injector, sent: Ghost(Seq::empty()) }
    }

    /// Another handle to the same index, for another producer.
    pub fn fork(&self) -> (feed: Feed)
        ensures
            feed.sent() == Seq::<CandidateView>::empty(),
    {
        Feed { injector: clone_injector(&self.injector), sent: Ghost(Seq::empty()) }
    }

    /// Hands one candidate to the index, unless its text is longer than the
    /// index takes.
    pub fn push(&mut self, candidate: CandidateLine) -> (accepted: bool)
        ensures
            accepted == fits_index(candidate@.line),
            accepted ==> final(self).sent() == old(self).sent().push(candidate@),
            !accepted ==> final(self).sent() == old(self).sent(),
    {
        let chars: usize = candidate.line.as_str().unicode_len();
        if chars > u32::MAX as usize {
            return false;
        }
        let ghost view = candidate@;
        push_candidate(&self.injector, candidate);
        proof {
            self.sent@ = self.sent@.push(view);
        }
        true
    }
}

} // verus!
