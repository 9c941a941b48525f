//! The channel: one match index behind the query contract of the interface.

use vstd::prelude::*;
use crate::candidate::CandidateLine;
use crate::entry::Entry;
use crate::entry::PreviewType;
use crate::feed::Feed;
use crate::highlight::highlight_ranges;
use crate::highlight::marks;
use crate::icon::icon_for;
use crate::index::injector_of;
use crate::index::item_count;
use crate::index::item_total;
use crate::index::match_positions;
use crate::index::matched;
use crate::index::matched_count;
use crate::index::matched_item;
use crate::index::new_index;
use crate::index::new_scratch;
use crate::index::path_config;
use crate::index::pattern_text;
use crate::index::plain_config;
use crate::index::reparse;
use crate::index::tick;
use crate::index::told_extension;
use crate::index::Hit;
use crate::index::Tick;
use crate::page::page;
use crate::path::chars_of;
use crate::path::decimal;
use crate::path::push_decimal;
use crate::path::starts_with;
use crate::task::abort_task;
use nucleo::Matcher;
use nucleo::Nucleo;
use tokio::task::JoinHandle;

verus! {

/// How long one query waits for the index, in milliseconds.
pub const MATCHER_TICK_TIMEOUT: u64 = 2;

/// A channel over lines of text.
pub struct Channel {
    matcher: Nucleo<CandidateLine>,
    scratch: Matcher,
    last_pattern: String,
    result_count: u32,
    total_count: u32,
    running: bool,
    path_scoring: bool,
    crawl_handle: Option<JoinHandle<()>>,
}

/// `entry` is what a page of results shows for the match `hit`: the text of
/// the line with its highlight ranges, under the path of the file.
pub open spec fn shows(entry: Entry, hit: Hit) -> bool {
    &&& entry.name@ == hit.path + decimal(hit.line_number)
    &&& entry.display_name is Some
    &&& entry.display_name->0@ == hit.path
    &&& entry.value is Some
    &&& entry.value->0@ == hit.text
    &&& entry.value_match_ranges is Some
    &&& marks(hit.positions, entry.value_match_ranges->0@)
    &&& entry.icon is Some
    &&& entry.line_number is Some
    &&& entry.line_number->0 as nat == hit.line_number
    &&& entry.preview_type == PreviewType::Files
}

/// `entry` is what a single lookup gives for the match `hit`: the file and
/// the line number, without the text and without highlight ranges.
pub open spec fn names(entry: Entry, hit: Hit) -> bool {
    &&& entry.name@ == hit.path
    &&& entry.display_name is Some
    &&& entry.display_name->0@ == hit.path.push(':') + decimal(hit.line_number)
    &&& entry.value is None
    &&& entry.value_match_ranges is None
    &&& entry.icon is Some
    &&& entry.line_number is Some
    &&& entry.line_number->0 as nat == hit.line_number
    &&& entry.preview_type == PreviewType::Files
}

/// `post` is the channel `pre` after it was asked to find `pattern`: the
/// index knows the pattern, and nothing that a query reads has changed yet.
/// Asking for the pattern that the channel already has changes nothing at
/// all. With another pattern the index is told whether it extends the last
/// one.
pub open spec fn found(pre: Channel, pattern: Seq<char>, post: Channel) -> bool {
    &&& post.wf()
    &&& post.pattern() == pattern
    &&& post.hits() == pre.hits()
    &&& post.total() == pre.total()
    &&& post.is_running() == pre.is_running()
    &&& post.favours_paths() == pre.favours_paths()
    &&& post.task() == pre.task()
    &&& pattern == pre.pattern() ==> post == pre
    &&& pattern != pre.pattern() ==> post.told_extension() == pre.pattern().is_prefix_of(pattern)
}

/// What the index is told when the pattern `last` gives way to `new`:
/// nothing where they are the same; otherwise the new pattern, together with
/// whether it extends the last one, so that the index may rescore its last
/// matches only.
pub open spec fn hint(last: Seq<char>, new: Seq<char>) -> Option<bool> {
    if new == last {
        None
    } else {
        Some(last.is_prefix_of(new))
    }
}

/// Decides what the index is told when the pattern `last` gives way to `new`.
pub fn reparse_hint(last: &str, new: &str) -> (h: Option<bool>)
    ensures
        h == hint(last@, new@),
{
    let new_chars = chars_of(new);
    let last_chars = chars_of(last);
    let extends = starts_with(&new_chars, &last_chars);
    if extends && new_chars.len() == last_chars.len() {
        assert(new@ =~= last@);
        None
    } else {
        Some(extends)
    }
}

/// Finding the same pattern twice in a row is finding it once: the second
/// call leaves the channel as the first one left it.
pub proof fn lemma_find_idempotent(a: Channel, b: Channel, c: Channel, pattern: Seq<char>)
    requires
        found(a, pattern, b),
        found(b, pattern, c),
    ensures
        c == b,
{
}

impl Channel {
    /// The index knows the channel's pattern.
    pub closed spec fn knows_pattern(&self) -> bool {
        self.last_pattern@ == pattern_text(self.matcher)
    }

    /// The cached counts are those of the index's snapshot, and the index
    /// knows the channel's pattern.
    pub closed spec fn wf(&self) -> bool {
        &&& self.knows_pattern()
        &&& self.result_count as nat == matched(self.matcher).len()
        &&& self.total_count as nat == item_total(self.matcher)
    }

    /// Whether the index was told, with the channel's pattern, that it
    /// extends the pattern before.
    pub closed spec fn told_extension(&self) -> bool {
        told_extension(self.matcher)
    }

    /// The pattern that the channel was last asked to find.
    pub closed spec fn pattern(&self) -> Seq<char> {
        self.last_pattern@
    }

    /// The matches of the snapshot that the channel last saw, best first.
    pub closed spec fn hits(&self) -> Seq<Hit> {
        matched(self.matcher)
    }

    /// The number of candidates that the snapshot covers.
    pub closed spec fn total(&self) -> nat {
        self.total_count as nat
    }

    /// Work was outstanding when the channel last polled its index.
    pub closed spec fn is_running(&self) -> bool {
        self.running
    }

    /// The index was made to score its candidates as paths.
    pub closed spec fn favours_paths(&self) -> bool {
        self.path_scoring
    }

    /// The handle of the task that feeds the channel, where one is attached.
    pub closed spec fn task(&self) -> Option<JoinHandle<()>> {
        self.crawl_handle
    }

    /// A channel with an empty index that scores lines of text. Nothing feeds
    /// it yet: see [`Channel::feed`].
    pub fn new() -> (channel: Channel)
        ensures
            channel.wf(),
            channel.pattern() == Seq::<char>::empty(),
            channel.hits() == Seq::<Hit>::empty(),
            channel.total() == 0,
            !channel.is_running(),
            !channel.favours_paths(),
            channel.task() is None,
    {
        Channel {
            matcher: new_index(plain_config()),
            scratch: new_scratch(),
            last_pattern: String::new(),
            result_count: 0,
            total_count: 0,
            running: false,
            path_scoring: false,
            crawl_handle: None,
        }
    }

    /// A channel with an empty index for candidates taken over from another
    /// channel: its scoring favours the parts of a path.
    pub fn seeded() -> (channel: Channel)
        ensures
            channel.wf(),
            channel.pattern() == Seq::<char>::empty(),
            channel.hits() == Seq::<Hit>::empty(),
            channel.total() == 0,
            !channel.is_running(),
            channel.favours_paths(),
            channel.task() is None,
    {
        Channel {
            matcher: new_index(path_config()),
            scratch: new_scratch(),
            last_pattern: String::new(),
            result_count: 0,
            total_count: 0,
            running: false,
            path_scoring: true,
            crawl_handle: None,
        }
    }

    /// A handle for a producer of candidates.
    pub fn feed(&self) -> (feed: Feed)
        ensures
            feed.sent().len() == 0,
    {
        Feed::new(injector_of(&self.matcher))
    }

    /// Keeps the handle of the task that feeds the channel, so that
    /// [`Channel::shutdown`] can cancel it.
    pub fn attach(&mut self, handle: JoinHandle<()>)
        ensures
            final(self).task() == Some(handle),
            final(self).favours_paths() == old(self).favours_paths(),
            final(self).told_extension() == old(self).told_extension(),
            final(self).wf() == old(self).wf(),
            final(self).pattern() == old(self).pattern(),
            final(self).hits() == old(self).hits(),
            final(self).total() == old(self).total(),
            final(self).is_running() == old(self).is_running(),
    {
        self.crawl_handle = Some(handle);
    }

    /// Tells the index the pattern to match, unless it is the pattern that
    /// the channel already has. What the index is told is decided by
    /// [`reparse_hint`].
    pub fn find(&mut self, pattern: &str)
        requires
            old(self).wf(),
        ensures
            found(*old(self), pattern@, *final(self)),
    {
        match reparse_hint(self.last_pattern.as_str(), pattern) {
            None => {},
            Some(append) => {
                reparse(&mut self.matcher, pattern, append);
                self.last_pattern = pattern.to_owned();
            },
        }
    }

    /// Takes note of what a poll of the index has reported: the counts are
    /// read anew where the snapshot may have changed, and the channel runs as
    /// long as the index does.
    pub fn refresh(&mut self, status: Tick)
        requires
            old(self).knows_pattern(),
            !status.changed ==> old(self).wf(),
        ensures
            final(self).wf(),
            final(self).is_running() == status.running,
            !status.changed ==> final(self).total() == old(self).total(),
            final(self).hits() == old(self).hits(),
            final(self).pattern() == old(self).pattern(),
            final(self).told_extension() == old(self).told_extension(),
            final(self).favours_paths() == old(self).favours_paths(),
            final(self).task() == old(self).task(),
    {
        if status.changed {
            self.result_count = matched_count(&self.matcher);
            self.total_count = item_count(&self.matcher);
        }
        self.running = status.running;
    }

    /// One page of the matches of the snapshot that the channel last saw: at
    /// most `num_entries` of them from position `offset` on, best first, each
    /// with its highlight ranges. The page is empty where `offset` lies at or
    /// behind the number of matches. The index is not polled, and the channel
    /// stays as it is.
    pub fn page(&mut self, num_entries: u32, offset: u32) -> (entries: Vec<Entry>)
        requires
            old(self).wf(),
        ensures
            final(self).wf(),
            final(self).hits() == old(self).hits(),
            final(self).total() == old(self).total(),
            final(self).is_running() == old(self).is_running(),
            final(self).pattern() == old(self).pattern(),
            final(self).told_extension() == old(self).told_extension(),
            final(self).favours_paths() == old(self).favours_paths(),
            final(self).task() == old(self).task(),
            entries@.len() == page(old(self).hits(), num_entries as nat, offset as nat).len(),
            forall|i: int|
                0 <= i < entries@.len() ==> shows(
                    #[trigger] entries@[i],
                    page(old(self).hits(), num_entries as nat, offset as nat)[i],
                ),
    {
        let count: u32 = self.result_count;
        let start: u32 = if offset <= count { offset } else { count };
        let wanted: u64 = num_entries as u64 + offset as u64;
        let end: u32 = if wanted <= count as u64 { wanted as u32 } else { count };
        let ghost hits = matched(self.matcher);
        let ghost shown = page(hits, num_entries as nat, offset as nat);
        let mut entries: Vec<Entry> = Vec::new();
        if start >= end {
            return entries;
        }
        let mut i: u32 = start;
        while i < end
            invariant
                start <= i <= end <= count,
                count as nat == hits.len(),
                hits == matched(self.matcher),
                shown == hits.subrange(start as int, end as int),
                self.matcher == old(self).matcher,
                self.last_pattern == old(self).last_pattern,
                self.result_count == old(self).result_count,
                self.total_count == old(self).total_count,
                self.running == old(self).running,
                self.path_scoring == old(self).path_scoring,
                self.crawl_handle == old(self).crawl_handle,
                entries@.len() == i - start,
                forall|k: int| 0 <= k < entries@.len() ==> shows(#[trigger] entries@[k], shown[k]),
            decreases end - i,
        {
            let item = matched_item(&self.matcher, i);
            let line = item.unwrap();
            let positions = match_positions(&self.matcher, &mut self.scratch, i);
            let ranges = highlight_ranges(&positions);
            let mut name = line.path.clone();
            push_decimal(&mut name, line.line_number);
            let icon = icon_for(line.path.as_str());
            let entry = Entry::new(name, PreviewType::Files).with_display_name(line.path).with_value(
                line.text,
            ).with_value_match_ranges(ranges).with_icon(icon).with_line_number(line.line_number);
            assert(shown[i - start] == hits[i as int]);
            assert(shows(entry, hits[i as int]));
            entries.push(entry);
            i = i + 1;
        }
        entries
    }

    /// Polls the index once, waiting at most `MATCHER_TICK_TIMEOUT`
    /// milliseconds, and returns one page of the matches that it then has:
    /// see [`Channel::page`].
    pub fn results(&mut self, num_entries: u32, offset: u32) -> (entries: Vec<Entry>)
        requires
            old(self).wf(),
        ensures
            final(self).wf(),
            final(self).pattern() == old(self).pattern(),
            final(self).told_extension() == old(self).told_extension(),
            final(self).favours_paths() == old(self).favours_paths(),
            final(self).task() == old(self).task(),
            entries@.len() == page(final(self).hits(), num_entries as nat, offset as nat).len(),
            forall|i: int|
                0 <= i < entries@.len() ==> shows(
                    #[trigger] entries@[i],
                    page(final(self).hits(), num_entries as nat, offset as nat)[i],
                ),
    {
        let status = tick(&mut self.matcher, MATCHER_TICK_TIMEOUT);
        self.refresh(status);
        self.page(num_entries, offset)
    }

    /// The match at position `index` of the snapshot that the channel last
    /// saw, if there is one. The index is not polled.
    pub fn get_result(&self, index: u32) -> (entry: Option<Entry>)
        ensures
            entry is Some <==> index < self.hits().len(),
            entry is Some ==> names(entry->0, self.hits()[index as int]),
    {
        match matched_item(&self.matcher, index) {
            Some(line) => {
                let mut shown = line.path.clone();
                shown.push(':');
                push_decimal(&mut shown, line.line_number);
                let icon = icon_for(line.path.as_str());
                Some(
                    Entry::new(line.path, PreviewType::Files).with_display_name(shown).with_icon(
                        icon,
                    ).with_line_number(line.line_number),
                )
            },
            None => None,
        }
    }

    /// The number of matches at the last poll.
    pub fn result_count(&self) -> (n: u32)
        ensures
            self.wf() ==> n as nat == self.hits().len(),
    {
        self.result_count
    }

    /// The number of candidates at the last poll.
    pub fn total_count(&self) -> (n: u32)
        ensures
            n as nat == self.total(),
    {
        self.total_count
    }

    /// Whether work was outstanding at the last poll.
    pub fn running(&self) -> (r: bool)
        ensures
            r == self.is_running(),
    {
        self.running
    }

    /// Cancels the task that feeds the channel, if one is attached. What the
    /// index holds stays as it is.
    pub fn shutdown(&self) {
        match &self.crawl_handle {
            Some(handle) => {
                abort_task(handle);
            },
            None => {},
        }
    }
}

} // verus!
