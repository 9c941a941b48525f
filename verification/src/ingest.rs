//! From the lines of one file to candidates in the index.

use vstd::prelude::*;
use crate::candidate::CandidateLine;
use crate::candidate::CandidateView;
use crate::feed::fits_index;
use crate::feed::Feed;
use crate::line::normalized;
use crate::line::preprocess_line;
use crate::path::relative_to;
use crate::path::relativize;
use crate::sample::is_text_sample;
use crate::sample::looks_like_text;

verus! {

/// The lines of a file as text: a line that could not be decoded is `None`.
pub open spec fn texts(lines: Seq<Option<String>>) -> Seq<Option<Seq<char>>> {
    Seq::new(
        lines.len(),
        |i: int|
            match lines[i] {
                Some(line) => Some(line@),
                None => None,
            },
    )
}

/// The first `k` lines were all decoded.
pub open spec fn all_read(lines: Seq<Option<Seq<char>>>, k: nat) -> bool {
    forall|j: int| 0 <= j < k ==> (#[trigger] lines[j]) is Some
}

/// A normalized line becomes a candidate where it is not empty and the index
/// can take it.
pub open spec fn admitted(text: Seq<char>) -> bool {
    text.len() > 0 && fits_index(text)
}

/// The candidates that the first `k` lines of a file give: one for each line
/// whose normalized text is admitted, numbered by the line's place in the
/// file, counted from 1. Nothing comes from a line that could not be decoded,
/// nor from any line behind it.
pub open spec fn emitted(path: Seq<char>, lines: Seq<Option<Seq<char>>>, k: nat) -> Seq<
    CandidateView,
>
    decreases k,
{
    if k == 0 {
        Seq::<CandidateView>::empty()
    } else {
        let before = emitted(path, lines, (k - 1) as nat);
        if k <= lines.len() && all_read(lines, k) && admitted(normalized(lines[k - 1]->0)) {
            before.push(
                CandidateView { path: path, line: normalized(lines[k - 1]->0), line_number: k },
            )
        } else {
            before
        }
    }
}

/// The candidates of a whole file.
pub open spec fn file_candidates(path: Seq<char>, lines: Seq<Option<Seq<char>>>) -> Seq<
    CandidateView,
> {
    emitted(path, lines, lines.len())
}

/// A file gives at most one candidate for each of its lines.
pub proof fn lemma_emitted_len(path: Seq<char>, lines: Seq<Option<Seq<char>>>, k: nat)
    ensures
        emitted(path, lines, k).len() <= k,
    decreases k,
{
    if k > 0 {
        lemma_emitted_len(path, lines, (k - 1) as nat);
    }
}

/// Behind a line that could not be decoded nothing is emitted.
pub proof fn lemma_emitted_stops(path: Seq<char>, lines: Seq<Option<Seq<char>>>, i: nat, k: nat)
    requires
        i < lines.len(),
        lines[i as int] is None,
        i <= k,
    ensures
        emitted(path, lines, k) == emitted(path, lines, i),
    decreases k,
{
    if k > i {
        lemma_emitted_stops(path, lines, i, (k - 1) as nat);
        assert(!all_read(lines, k));
    }
}

/// The line numbers of a file's candidates are in range and strictly
/// increasing.
pub proof fn lemma_emitted_numbers(path: Seq<char>, lines: Seq<Option<Seq<char>>>, k: nat)
    ensures
        forall|a: int|
            0 <= a < emitted(path, lines, k).len() ==> 1 <= (#[trigger] emitted(
                path,
                lines,
                k,
            )[a]).line_number <= k,
        forall|a: int, b: int|
            0 <= a < b < emitted(path, lines, k).len() ==> (#[trigger] emitted(
                path,
                lines,
                k,
            )[a]).line_number < (#[trigger] emitted(path, lines, k)[b]).line_number,
    decreases k,
{
    if k > 0 {
        let before = emitted(path, lines, (k - 1) as nat);
        let now = emitted(path, lines, k);
        lemma_emitted_numbers(path, lines, (k - 1) as nat);
        assert forall|a: int| 0 <= a < now.len() implies 1 <= (#[trigger] now[a]).line_number
            <= k by {
            if a < before.len() {
                assert(now[a] == before[a]);
            }
        }
        assert forall|a: int, b: int| 0 <= a < b < now.len() implies (#[trigger] now[a]).line_number
            < (#[trigger] now[b]).line_number by {
            assert(now[a] == before[a]);
            if b < before.len() {
                assert(now[b] == before[b]);
            }
        }
    }
}

/// Reads a file for candidates. `sample` holds the first bytes of the file
/// and `lines` its lines in order, up to and including the first that could
/// not be decoded. Where the sample is not taken for text nothing is handed to
/// the index. Otherwise the candidates of the file are handed over, under the
/// path relative to `current_dir`, and their number is returned.
pub fn try_inject_lines(
    feed: &mut Feed,
    current_dir: &str,
    path: &str,
    sample: &[u8],
    lines: &Vec<Option<String>>,
) -> (injected: Option<usize>)
    ensures
        injected is Some <==> looks_like_text(sample@),
        injected is None ==> final(feed).sent() == old(feed).sent(),
        injected is Some ==> final(feed).sent() == old(feed).sent() + file_candidates(
            relative_to(path@, current_dir@),
            texts(lines@),
        ),
        injected is Some ==> injected->0 == file_candidates(
            relative_to(path@, current_dir@),
            texts(lines@),
        ).len(),
{
    if !is_text_sample(sample) {
        return None;
    }
    let shown = relativize(path, current_dir);
    let ghost all = texts(lines@);
    let mut injected_lines: usize = 0;
    let mut i: usize = 0;
    while i < lines.len()
        invariant
            i <= lines.len(),
            all == texts(lines@),
            all_read(all, i as nat),
            injected_lines == emitted(shown@, all, i as nat).len(),
            injected_lines <= i,
            feed.sent() == old(feed).sent() + emitted(shown@, all, i as nat),
        ensures
            feed.sent() == old(feed).sent() + file_candidates(shown@, all),
            injected_lines == file_candidates(shown@, all).len(),
        decreases lines.len() - i,
    {
        match &lines[i] {
            Some(raw) => {
                assert(all[i as int] == Some(raw@));
                assert(all_read(all, (i + 1) as nat));
                let line = preprocess_line(raw.as_str());
                if line.as_str().unicode_len() > 0 {
                    let candidate = CandidateLine::new(shown.clone(), line, i + 1);
                    let accepted = feed.push(candidate);
                    if accepted {
                        injected_lines = injected_lines + 1;
                        assert(old(feed).sent() + emitted(shown@, all, i as nat).push(
                            CandidateView {
                                path: shown@,
                                line: normalized(raw@),
                                line_number: (i + 1) as nat,
                            },
                        ) =~= (old(feed).sent() + emitted(shown@, all, i as nat)).push(
                            CandidateView {
                                path: shown@,
                                line: normalized(raw@),
                                line_number: (i + 1) as nat,
                            },
                        ));
                    }
                }
                i = i + 1;
            },
            None => {
                assert(all[i as int] is None);
                proof {
                    lemma_emitted_stops(shown@, all, i as nat, all.len());
                }
                break;
            },
        }
    }
    Some(injected_lines)
}

} // verus!
