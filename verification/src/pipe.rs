//! Composition: a text channel fed from the results of another channel.

use vstd::prelude::*;
use crate::candidate::CandidateLine;
use crate::candidate::CandidateView;
use crate::channel::Channel;
use crate::entry::Entry;
use crate::feed::fits_index;
use crate::feed::Feed;
use crate::index::Hit;
use crate::limits::over_budget;
use crate::limits::MAX_LINES_IN_MEM;
use crate::limits::MAX_PIPED_FILES;

verus! {

/// The kind of the channel whose results are taken over.
#[derive(Clone, Copy, Debug, PartialEq, Eq, Structural)]
pub enum SourceKind {
    /// A channel of files.
    Files,
    /// A channel of repositories, each a directory.
    GitRepos,
    /// A channel of lines of text.
    Text,
    /// Any other channel. Nothing can be taken over from it.
    Other,
}

/// How the new channel is fed.
#[derive(Clone, Copy, Debug, PartialEq, Eq, Structural)]
pub enum Seeding {
    /// The results name files, which are loaded one after the other.
    FilePaths,
    /// The results name directories, which are crawled.
    Directories,
    /// The results are lines already, and go to the index as they are.
    TextEntries,
}

/// What is taken over from the source channel.
#[derive(Clone, Copy, Debug, PartialEq, Eq, Structural)]
pub struct PipePlan {
    /// How the new channel is fed.
    pub seeding: Seeding,
    /// The number of results to ask the source channel for, from its best on.
    pub take: u32,
}

/// The rule of composition: of a channel of files at most `MAX_PIPED_FILES`
/// results are taken, of the others all.
pub open spec fn piped(kind: SourceKind, result_count: u32) -> PipePlan {
    match kind {
        SourceKind::Files => PipePlan {
            seeding: Seeding::FilePaths,
            take: if result_count <= MAX_PIPED_FILES {
                result_count
            } else {
                MAX_PIPED_FILES as u32
            },
        },
        SourceKind::GitRepos => PipePlan { seeding: Seeding::Directories, take: result_count },
        _ => PipePlan { seeding: Seeding::TextEntries, take: result_count },
    }
}

/// Never more files are taken over than the cap allows.
pub proof fn lemma_piped_files_capped(result_count: u32)
    ensures
        piped(SourceKind::Files, result_count).take <= MAX_PIPED_FILES,
        piped(SourceKind::Files, result_count).take <= result_count,
        piped(SourceKind::Files, result_count).take <= MAX_LINES_IN_MEM / 200,
{
}

/// Plans the composition from a source channel of kind `kind` that has
/// `result_count` results. A source of another kind is a mistake of the
/// caller.
pub fn plan_pipe(kind: SourceKind, result_count: u32) -> (plan: PipePlan)
    requires
        kind != SourceKind::Other,
    ensures
        plan == piped(kind, result_count),
{
    match kind {
        SourceKind::Files => {
            let cap: u32 = MAX_PIPED_FILES as u32;
            PipePlan {
                seeding: Seeding::FilePaths,
                take: if result_count <= cap {
                    result_count
                } else {
                    cap
                },
            }
        },
        SourceKind::GitRepos => PipePlan { seeding: Seeding::Directories, take: result_count },
        _ => PipePlan { seeding: Seeding::TextEntries, take: result_count },
    }
}

/// The empty channel for a way of feeding: one that scores lines of text
/// where directories are crawled, one that favours paths otherwise.
pub fn channel_for(seeding: Seeding) -> (channel: Channel)
    ensures
        channel.wf(),
        channel.pattern() == Seq::<char>::empty(),
        channel.hits() == Seq::<Hit>::empty(),
        channel.total() == 0,
        !channel.is_running(),
        channel.favours_paths() == (seeding != Seeding::Directories),
        channel.task() is None,
{
    match seeding {
        Seeding::Directories => Channel::new(),
        _ => Channel::seeded(),
    }
}

/// The names of the entries, which are the paths to seed the new channel with.
pub fn seed_paths(entries: &Vec<Entry>) -> (paths: Vec<String>)
    ensures
        paths@.len() == entries@.len(),
        forall|i: int| 0 <= i < paths@.len() ==> (#[trigger] paths@[i])@ == entries@[i].name@,
{
    let mut paths: Vec<String> = Vec::new();
    let mut i: usize = 0;
    while i < entries.len()
        invariant
            i <= entries.len(),
            paths@.len() == i,
            forall|k: int| 0 <= k < i ==> (#[trigger] paths@[k])@ == entries@[k].name@,
        decreases entries.len() - i,
    {
        paths.push(entries[i].name.clone());
        i = i + 1;
    }
    paths
}

/// The entry carries a line: it has a text and a line number.
pub open spec fn carries_line(entry: Entry) -> bool {
    entry.value is Some && entry.line_number is Some
}

/// The candidate that an entry of a text channel stands for.
pub open spec fn entry_candidate(entry: Entry) -> CandidateView {
    CandidateView {
        path: entry.shown_name(),
        line: entry.value->0@,
        line_number: entry.line_number->0 as nat,
    }
}

/// The candidates that the first `k` of `entries` give: one for each entry
/// whose text the index can take, as long as the budget is not used up.
pub open spec fn seeded(entries: Seq<Entry>, k: nat) -> Seq<CandidateView>
    decreases k,
{
    if k == 0 {
        Seq::<CandidateView>::empty()
    } else {
        let before = seeded(entries, (k - 1) as nat);
        if over_budget(before.len()) || !fits_index(entries[k - 1].value->0@) {
            before
        } else {
            before.push(entry_candidate(entries[k - 1]))
        }
    }
}

/// The budget is respected: entries never leave more candidates than the
/// budget and one, nor more than there are entries.
pub proof fn lemma_seeded_within_budget(entries: Seq<Entry>, k: nat)
    ensures
        seeded(entries, k).len() <= MAX_LINES_IN_MEM + 1,
        seeded(entries, k).len() <= k,
    decreases k,
{
    if k > 0 {
        lemma_seeded_within_budget(entries, (k - 1) as nat);
    }
}

/// Hands the lines of another text channel's entries to the index, as long
/// as the budget allows, and returns their number. Every entry must carry a
/// line.
pub fn load_text_entries(feed: &mut Feed, entries: &Vec<Entry>) -> (injected: usize)
    requires
        forall|i: int| 0 <= i < entries@.len() ==> carries_line(#[trigger] entries@[i]),
    ensures
        final(feed).sent() == old(feed).sent() + seeded(entries@, entries@.len()),
        injected == seeded(entries@, entries@.len()).len(),
{
    let mut lines_in_mem: usize = 0;
    let mut i: usize = 0;
    assert(feed.sent() =~= old(feed).sent() + seeded(entries@, 0));
    while i < entries.len()
        invariant
            i <= entries.len(),
            forall|k: int| 0 <= k < entries@.len() ==> carries_line(#[trigger] entries@[k]),
            feed.sent() == old(feed).sent() + seeded(entries@, i as nat),
            lines_in_mem == seeded(entries@, i as nat).len(),
            lines_in_mem <= i,
        decreases entries.len() - i,
    {
        let entry = &entries[i];
        assert(carries_line(entries@[i as int]));
        if lines_in_mem <= MAX_LINES_IN_MEM {
            let path = entry.display_name().to_owned();
            let line = match &entry.value {
                Some(value) => value.clone(),
                None => String::new(),
            };
            let line_number: usize = match entry.line_number {
                Some(number) => number,
                None => 0,
            };
            let candidate = CandidateLine::new(path, line, line_number);
            assert(candidate@ == entry_candidate(entries@[i as int]));
            let accepted = feed.push(candidate);
            if accepted {
                lines_in_mem = lines_in_mem + 1;
            }
        }
        assert(feed.sent() =~= old(feed).sent() + seeded(entries@, (i + 1) as nat));
        i = i + 1;
    }
    lines_in_mem
}

} // verus!
