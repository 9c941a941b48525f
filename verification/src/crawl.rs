//! Discovery: which files are read, and when discovery stops.

use vstd::prelude::*;
use crate::budget::Budget;
use crate::candidate::CandidateView;
use crate::feed::Feed;
use crate::ingest::file_candidates;
use crate::ingest::lemma_emitted_len;
use crate::ingest::texts;
use crate::ingest::try_inject_lines;
use crate::limits::over_budget;
use crate::limits::size_allows;
use crate::limits::MAX_FILE_SIZE;
use crate::limits::MAX_LINES_IN_MEM;
use crate::path::relative_to;
use crate::sample::lemma_nul_is_not_text;
use crate::sample::looks_like_text;
use crate::sample::PEEK_LEN;

verus! {

/// What a walk over directories does after an entry.
#[derive(Clone, Copy, Debug, PartialEq, Eq, Structural)]
pub enum WalkState {
    /// It goes on to the next entry.
    Continue,
    /// It takes up no more entries.
    Quit,
}

/// What is done with an entry of a walk before anything of it is read.
#[derive(Clone, Copy, Debug, PartialEq, Eq, Structural)]
pub enum Admission {
    /// The budget is used up: discovery ends.
    Quit,
    /// The entry is passed over.
    Skip,
    /// The entry is read.
    Read,
}

/// A file as discovery has read it.
pub struct ScannedFile {
    /// The path of the file.
    pub path: String,
    /// The entry is a regular file.
    pub is_file: bool,
    /// The size of the file in bytes, or `None` where its metadata could not
    /// be read.
    pub size: Option<u64>,
    /// The first bytes of the file.
    pub sample: Vec<u8>,
    /// The lines of the file in order, up to and including the first that
    /// could not be decoded, which is `None`.
    pub lines: Vec<Option<String>>,
}

/// The rule of admission: nothing is taken once the budget is used up; what
/// is no regular file, is larger than `MAX_FILE_SIZE`, or has a size that
/// could not be found out, is passed over.
pub open spec fn admission(lines_in_mem: nat, is_file: bool, size: Option<u64>) -> Admission {
    if over_budget(lines_in_mem) {
        Admission::Quit
    } else if !is_file || !size_allows(size) {
        Admission::Skip
    } else {
        Admission::Read
    }
}

/// The candidates that a file gives when it is its turn: none where it is no
/// regular file, too large, of unknown size or not taken for text.
pub open spec fn yield_of(current_dir: Seq<char>, file: ScannedFile) -> Seq<CandidateView> {
    if !file.is_file || !size_allows(file.size) || !looks_like_text(file.sample@) {
        Seq::<CandidateView>::empty()
    } else {
        file_candidates(relative_to(file.path@, current_dir), texts(file.lines@))
    }
}

/// The candidates that a visit to a file hands to the index, for a count of
/// `lines_in_mem` candidates before it.
pub open spec fn visited(lines_in_mem: nat, current_dir: Seq<char>, file: ScannedFile) -> Seq<
    CandidateView,
> {
    if over_budget(lines_in_mem) {
        Seq::<CandidateView>::empty()
    } else {
        yield_of(current_dir, file)
    }
}

/// The candidates that the first `k` of `files` give when they are loaded one
/// after the other behind `base` candidates, each under the count that those
/// before it have left.
pub open spec fn loaded(base: nat, current_dir: Seq<char>, files: Seq<ScannedFile>, k: nat) -> Seq<
    CandidateView,
>
    decreases k,
{
    if k == 0 {
        Seq::<CandidateView>::empty()
    } else {
        let before = loaded(base, current_dir, files, (k - 1) as nat);
        before + visited(base + before.len(), current_dir, files[k - 1])
    }
}

/// A file larger than the ceiling gives no candidate, whatever it holds.
pub proof fn lemma_large_file_gives_nothing(current_dir: Seq<char>, file: ScannedFile)
    requires
        file.size is Some,
        file.size->0 > MAX_FILE_SIZE,
    ensures
        yield_of(current_dir, file).len() == 0,
{
}

/// A file whose metadata could not be read gives no candidate.
pub proof fn lemma_unknown_size_gives_nothing(current_dir: Seq<char>, file: ScannedFile)
    requires
        file.size is None,
    ensures
        yield_of(current_dir, file).len() == 0,
        forall|lines_in_mem: nat|
            admission(lines_in_mem, file.is_file, file.size) != Admission::Read,
{
}

/// A file with a NUL byte among its first bytes gives no candidate.
pub proof fn lemma_binary_file_gives_nothing(current_dir: Seq<char>, file: ScannedFile, i: int)
    requires
        0 <= i < file.sample@.len(),
        i < PEEK_LEN,
        file.sample@[i] == 0,
    ensures
        yield_of(current_dir, file).len() == 0,
{
    lemma_nul_is_not_text(file.sample@, i);
}

/// A file that is not taken for text gives no candidate.
pub proof fn lemma_unprintable_file_gives_nothing(current_dir: Seq<char>, file: ScannedFile)
    requires
        !looks_like_text(file.sample@),
    ensures
        yield_of(current_dir, file).len() == 0,
{
}

/// A file gives at most one candidate for each of its lines.
pub proof fn lemma_yield_len(current_dir: Seq<char>, file: ScannedFile)
    ensures
        yield_of(current_dir, file).len() <= file.lines@.len(),
{
    lemma_emitted_len(
        relative_to(file.path@, current_dir),
        texts(file.lines@),
        texts(file.lines@).len(),
    );
}

/// The budget is respected: files loaded one after the other never leave
/// more candidates than the budget and what one file gives.
pub proof fn lemma_load_within_budget(
    base: nat,
    current_dir: Seq<char>,
    files: Seq<ScannedFile>,
    k: nat,
    batch: nat,
)
    requires
        k <= files.len(),
        base <= MAX_LINES_IN_MEM + batch,
        forall|i: int| 0 <= i < k ==> (#[trigger] yield_of(current_dir, files[i])).len() <= batch,
    ensures
        base + loaded(base, current_dir, files, k).len() <= MAX_LINES_IN_MEM + batch,
    decreases k,
{
    if k > 0 {
        lemma_load_within_budget(base, current_dir, files, (k - 1) as nat, batch);
        assert(yield_of(current_dir, files[k - 1]).len() <= batch);
    }
}

/// One visit of a crawl with several workers, as the shared count saw it.
pub ghost struct Step {
    /// The count that the worker read before the visit.
    pub seen: nat,
    /// The number of candidates that the file gives.
    pub gives: nat,
}

/// The number of candidates that the first `k` visits of a crawl have handed
/// to the index, the visits taken in the order in which they read the count.
pub open spec fn pushed(steps: Seq<Step>, k: nat) -> nat
    decreases k,
{
    if k == 0 {
        0
    } else {
        pushed(steps, (k - 1) as nat) + if over_budget(steps[k - 1].seen) {
            0nat
        } else {
            steps[k - 1].gives
        }
    }
}

/// Every visit read a count that was at most `lag` candidates behind what
/// the visits before it hand over: the candidates of the files that other
/// workers had in hand at that moment.
pub open spec fn lags_by(steps: Seq<Step>, lag: nat) -> bool {
    forall|i: int| 0 <= i < steps.len() ==> pushed(steps, i as nat) <= (#[trigger] steps[i]).seen + lag
}

/// The budget is respected by a crawl with several workers: where no file
/// gives more than `batch` candidates and the count that a worker reads is
/// at most `lag` behind, never more candidates are handed over than the
/// budget, the lag and what one file gives.
pub proof fn lemma_crawl_within_budget(steps: Seq<Step>, k: nat, lag: nat, batch: nat)
    requires
        k <= steps.len(),
        lags_by(steps, lag),
        forall|i: int| 0 <= i < steps.len() ==> (#[trigger] steps[i]).gives <= batch,
    ensures
        pushed(steps, k) <= MAX_LINES_IN_MEM + lag + batch,
    decreases k,
{
    if k > 0 {
        lemma_crawl_within_budget(steps, (k - 1) as nat, lag, batch);
        let step = steps[k - 1];
        assert(step.gives <= batch);
        assert(pushed(steps, (k - 1) as nat) <= step.seen + lag);
    }
}

/// Once the budget is used up, nothing more is loaded.
pub proof fn lemma_load_stops(
    base: nat,
    current_dir: Seq<char>,
    files: Seq<ScannedFile>,
    i: nat,
    k: nat,
)
    requires
        i <= k,
        over_budget(base + loaded(base, current_dir, files, i).len()),
    ensures
        loaded(base, current_dir, files, k) == loaded(base, current_dir, files, i),
    decreases k,
{
    if k > i {
        lemma_load_stops(base, current_dir, files, i, (k - 1) as nat);
        assert(loaded(base, current_dir, files, k) =~= loaded(
            base,
            current_dir,
            files,
            (k - 1) as nat,
        ));
    }
}

/// Decides what to do with an entry before anything of it is read.
pub fn screen(lines_in_mem: usize, is_file: bool, size: Option<u64>) -> (a: Admission)
    ensures
        a == admission(lines_in_mem as nat, is_file, size),
{
    if lines_in_mem > MAX_LINES_IN_MEM {
        return Admission::Quit;
    }
    if !is_file {
        return Admission::Skip;
    }
    match size {
        Some(bytes) => {
            if bytes > MAX_FILE_SIZE {
                Admission::Skip
            } else {
                Admission::Read
            }
        },
        None => Admission::Skip,
    }
}

/// What a visit has done.
pub struct Visit {
    /// Whether discovery goes on.
    pub state: WalkState,
    /// The number of candidates that the visit has handed to the index.
    pub injected: usize,
}

/// Visits one file under a count of `lines_in_mem` candidates: applies the
/// rule of admission and the test for text, and hands the candidates of a
/// file that passes both to the index.
pub fn visit(feed: &mut Feed, current_dir: &str, lines_in_mem: usize, file: &ScannedFile) -> (v:
    Visit)
    ensures
        v.state == WalkState::Quit <==> over_budget(lines_in_mem as nat),
        final(feed).sent() == old(feed).sent() + visited(lines_in_mem as nat, current_dir@, *file),
        v.injected == visited(lines_in_mem as nat, current_dir@, *file).len(),
{
    match screen(lines_in_mem, file.is_file, file.size) {
        Admission::Quit => {
            assert(feed.sent() =~= old(feed).sent() + Seq::<CandidateView>::empty());
            Visit { state: WalkState::Quit, injected: 0 }
        },
        Admission::Skip => {
            assert(feed.sent() =~= old(feed).sent() + Seq::<CandidateView>::empty());
            Visit { state: WalkState::Continue, injected: 0 }
        },
        Admission::Read => {
            let injected = try_inject_lines(
                feed,
                current_dir,
                file.path.as_str(),
                file.sample.as_slice(),
                &file.lines,
            );
            match injected {
                Some(lines) => Visit { state: WalkState::Continue, injected: lines },
                None => {
                    assert(feed.sent() =~= old(feed).sent() + Seq::<CandidateView>::empty());
                    Visit { state: WalkState::Continue, injected: 0 }
                },
            }
        },
    }
}

/// One step of a worker of a parallel crawl: reads the shared count, visits
/// the file under it, and adds what the visit injected. The count may be
/// behind, so the step is a visit under some count.
pub fn crawl_for_candidates(
    feed: &mut Feed,
    current_dir: &str,
    budget: &Budget,
    file: &ScannedFile,
) -> (state: WalkState)
    ensures
        exists|seen: nat|
            {
                &&& state == WalkState::Quit <==> over_budget(seen)
                &&& final(feed).sent() == old(feed).sent() + #[trigger] visited(
                    seen,
                    current_dir@,
                    *file,
                )
            },
{
    let seen: usize = budget.used();
    let v = visit(feed, current_dir, seen, file);
    budget.charge(v.injected);
    assert(feed.sent() == old(feed).sent() + visited(seen as nat, current_dir@, *file));
    v.state
}

/// The count `n`, as far as a `usize` holds it.
pub open spec fn capped(n: nat) -> nat {
    if n <= usize::MAX {
        n
    } else {
        usize::MAX as nat
    }
}

/// One producer that loads files one after the other and keeps the count of
/// its candidates itself.
pub struct Loader {
    feed: Feed,
    current_dir: String,
    lines_in_mem: usize,
}

impl Loader {
    /// The count that the loader keeps is the number of candidates it has
    /// handed over.
    pub closed spec fn wf(&self) -> bool {
        self.lines_in_mem as nat == capped(self.feed.sent().len())
    }

    /// The candidates that the loader has handed to the index, in order.
    pub closed spec fn sent(&self) -> Seq<CandidateView> {
        self.feed.sent()
    }

    /// The directory to which paths are shown relative.
    pub closed spec fn base_dir(&self) -> Seq<char> {
        self.current_dir@
    }

    /// A loader that has handed over nothing yet, for files below
    /// `current_dir`. It feeds the index that `feed` feeds.
    pub fn new(feed: &Feed, current_dir: String) -> (loader: Loader)
        ensures
            loader.wf(),
            loader.sent() == Seq::<CandidateView>::empty(),
            loader.base_dir() == current_dir@,
    {
        Loader { feed: feed.fork(), current_dir, lines_in_mem: 0 }
    }

    /// The number of candidates handed over, or `usize::MAX` where that
    /// number is larger.
    pub fn injected(&self) -> (n: usize)
        requires
            self.wf(),
        ensures
            n as nat == capped(self.sent().len()),
    {
        self.lines_in_mem
    }

    /// Decides what to do with the next entry before anything of it is read.
    pub fn wants(&self, is_file: bool, size: Option<u64>) -> (a: Admission)
        requires
            self.wf(),
        ensures
            a == admission(self.sent().len(), is_file, size),
    {
        screen(self.lines_in_mem, is_file, size)
    }

    /// Takes one file: see [`visit`]. The file is visited under the count of
    /// what the loader has handed over before.
    pub fn offer(&mut self, file: &ScannedFile) -> (state: WalkState)
        requires
            old(self).wf(),
        ensures
            final(self).wf(),
            final(self).base_dir() == old(self).base_dir(),
            state == WalkState::Quit <==> over_budget(old(self).sent().len()),
            final(self).sent() == old(self).sent() + visited(
                old(self).sent().len(),
                old(self).base_dir(),
                *file,
            ),
    {
        let v = visit(&mut self.feed, self.current_dir.as_str(), self.lines_in_mem, file);
        assert(visited(old(self).lines_in_mem as nat, self.current_dir@, *file) == visited(
            old(self).sent().len(),
            self.current_dir@,
            *file,
        ));
        self.lines_in_mem = self.lines_in_mem.saturating_add(v.injected);
        v.state
    }

    /// Takes files one after the other, as long as the budget allows.
    pub fn load(&mut self, files: &Vec<ScannedFile>)
        requires
            old(self).wf(),
        ensures
            final(self).wf(),
            final(self).base_dir() == old(self).base_dir(),
            final(self).sent() == old(self).sent() + loaded(
                old(self).sent().len(),
                old(self).base_dir(),
                files@,
                files@.len(),
            ),
    {
        let ghost base = self.sent().len();
        let ghost dir = self.base_dir();
        let mut i: usize = 0;
        assert(self.sent() =~= old(self).sent() + loaded(base, dir, files@, 0));
        while i < files.len()
            invariant
                i <= files.len(),
                self.wf(),
                base == old(self).sent().len(),
                dir == old(self).base_dir(),
                self.base_dir() == dir,
                self.sent() == old(self).sent() + loaded(base, dir, files@, i as nat),
            ensures
                self.wf(),
                self.base_dir() == dir,
                self.sent() == old(self).sent() + loaded(base, dir, files@, files@.len()),
            decreases files.len() - i,
        {
            let state = self.offer(&files[i]);
            assert(self.sent() =~= old(self).sent() + loaded(base, dir, files@, (i + 1) as nat));
            if state == WalkState::Quit {
                proof {
                    lemma_load_stops(base, dir, files@, i as nat, files@.len());
                }
                break ;
            }
            i = i + 1;
        }
    }
}

} // verus!
