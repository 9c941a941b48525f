//! The incremental match index, as far as the channel relies on it.
//!
//! The index is the `nucleo` matcher. Nothing in this file is proved: it
//! declares the matcher's types, names what a snapshot of the index holds, and
//! states for each call what the matcher's source shows.

use vstd::prelude::*;
use crate::candidate::CandidateLine;
use nucleo::pattern::CaseMatching;
use nucleo::pattern::Normalization;
use nucleo::Config;
use nucleo::Injector;
use nucleo::Matcher;
use nucleo::Nucleo;

verus! {

#[verifier::external_type_specification]
#[verifier::external_body]
#[verifier::reject_recursive_types(T)]
pub struct ExNucleo<T: Sync + Send + 'static>(Nucleo<T>);

#[verifier::external_type_specification]
#[verifier::external_body]
#[verifier::reject_recursive_types(T)]
pub struct ExInjector<T>(Injector<T>);

#[verifier::external_type_specification]
#[verifier::external_body]
pub struct ExMatcher(Matcher);

#[verifier::external_type_specification]
#[verifier::external_body]
pub struct ExConfig(Config);

/// One matched item of a snapshot.
pub ghost struct Hit {
    /// Path of the candidate.
    pub path: Seq<char>,
    /// Line number of the candidate.
    pub line_number: nat,
    /// The text of the item's match column, as the index displays it.
    pub text: Seq<char>,
    /// The character positions of `text` at which the snapshot's pattern
    /// matches, in the order in which the matcher reports them: neither sorted
    /// nor free of repetitions.
    pub positions: Seq<u32>,
}

/// The matched items of the index's current snapshot, best match first.
pub uninterp spec fn matched(m: Nucleo<CandidateLine>) -> Seq<Hit>;

/// The number of items, matched or not, that the current snapshot covers.
pub uninterp spec fn item_total(m: Nucleo<CandidateLine>) -> nat;

/// The pattern text that the index was last told, empty at first.
pub uninterp spec fn pattern_text(m: Nucleo<CandidateLine>) -> Seq<char>;

/// Whether the index was told, together with the pattern text it was last
/// told, that this text extends the one before.
pub uninterp spec fn told_extension(m: Nucleo<CandidateLine>) -> bool;

/// What one poll of the index reports.
pub struct Tick {
    /// The snapshot may differ from the one before the poll.
    pub changed: bool,
    /// Work is still outstanding in the background.
    pub running: bool,
}

/// A matched item, copied out of a snapshot.
pub struct MatchedLine {
    pub path: String,
    pub line_number: usize,
    pub text: String,
}

/// `nucleo::Config::DEFAULT`: the matcher's standard configuration.
#[verifier::external_body]
pub(crate) fn plain_config() -> Config {
    Config::DEFAULT
}

/// `nucleo::Config::match_paths` on the standard configuration: scoring
/// tuned for file paths.
#[verifier::external_body]
pub(crate) fn path_config() -> Config {
    Config::DEFAULT.match_paths()
}

/// `nucleo::Nucleo::new` with one match column, a notifier that does nothing
/// and the default number of worker threads. The new index has an empty
/// snapshot and an empty pattern. The call fails only where the system gives
/// it no threads.
#[verifier::external_body]
pub(crate) fn new_index(config: Config) -> (m: Nucleo<CandidateLine>)
    ensures
        matched(m) == Seq::<Hit>::empty(),
        item_total(m) == 0,
        pattern_text(m) == Seq::<char>::empty(),
{
    Nucleo::new(config, std::sync::Arc::new(|| {}), None, 1)
}

/// `nucleo::Matcher::new`: a scratch buffer for computing match positions.
#[verifier::external_body]
pub(crate) fn new_scratch() -> Matcher {
    Matcher::new(Config::DEFAULT)
}

/// `nucleo::Nucleo::injector`: a handle through which candidates enter the
/// index.
#[verifier::external_body]
pub(crate) fn injector_of(m: &Nucleo<CandidateLine>) -> Injector<CandidateLine> {
    m.injector()
}

/// `Clone` of `nucleo::Injector`: a second handle to the same index.
#[verifier::external_body]
pub(crate) fn clone_injector(injector: &Injector<CandidateLine>) -> Injector<CandidateLine> {
    injector.clone()
}

/// `nucleo::Injector::push`, with the candidate's line as the text of the one
/// match column. The workers of the index refuse a text of more than
/// `u32::MAX` characters, so such a candidate is not admitted here. The index
/// itself takes up to `u32::MAX` items, which is far beyond the budget at
/// which discovery stops.
#[verifier::external_body]
pub(crate) fn push_candidate(injector: &Injector<CandidateLine>, candidate: CandidateLine)
    requires
        candidate.line@.len() <= u32::MAX,
{
    injector.push(candidate, |c, columns| { columns[0] = c.line.clone().into(); });
}

/// `nucleo::pattern::MultiPattern::reparse` on the one match column, with
/// smart case matching and smart normalization. The index learns the new text
/// and, with it, `append`: the caller's promise that the text it told the
/// index before is a prefix of the new one. Its snapshot stays as it is until
/// the next poll.
#[verifier::external_body]
pub(crate) fn reparse(m: &mut Nucleo<CandidateLine>, pattern: &str, append: bool)
    requires
        append ==> pattern_text(*old(m)).is_prefix_of(pattern@),
    ensures
        pattern_text(*final(m)) == pattern@,
        told_extension(*final(m)) == append,
        matched(*final(m)) == matched(*old(m)),
        item_total(*final(m)) == item_total(*old(m)),
{
    m.pattern.reparse(0, pattern, CaseMatching::Smart, Normalization::Smart, append);
}

/// `nucleo::Nucleo::tick`: waits at most `timeout` milliseconds for the
/// workers and reports. The snapshot is replaced only where the report says
/// `changed`; what the index was last told is not touched.
#[verifier::external_body]
pub(crate) fn tick(m: &mut Nucleo<CandidateLine>, timeout: u64) -> (t: Tick)
    ensures
        pattern_text(*final(m)) == pattern_text(*old(m)),
        told_extension(*final(m)) == told_extension(*old(m)),
        !t.changed ==> matched(*final(m)) == matched(*old(m)),
        !t.changed ==> item_total(*final(m)) == item_total(*old(m)),
{
    let status = m.tick(timeout);
    Tick { changed: status.changed, running: status.running }
}

/// `nucleo::Snapshot::matched_item_count` of the current snapshot.
#[verifier::external_body]
pub(crate) fn matched_count(m: &Nucleo<CandidateLine>) -> (n: u32)
    ensures
        n as nat == matched(*m).len(),
{
    m.snapshot().matched_item_count()
}

/// `nucleo::Snapshot::item_count` of the current snapshot.
#[verifier::external_body]
pub(crate) fn item_count(m: &Nucleo<CandidateLine>) -> (n: u32)
    ensures
        n as nat == item_total(*m),
{
    m.snapshot().item_count()
}

/// `nucleo::Snapshot::get_matched_item`: the `n`-th match of the current
/// snapshot, copied out, or nothing where the snapshot has fewer matches.
#[verifier::external_body]
pub(crate) fn matched_item(m: &Nucleo<CandidateLine>, n: u32) -> (r: Option<MatchedLine>)
    ensures
        r is Some <==> n < matched(*m).len(),
        r is Some ==> r->0.path@ == matched(*m)[n as int].path,
        r is Some ==> r->0.line_number as nat == matched(*m)[n as int].line_number,
        r is Some ==> r->0.text@ == matched(*m)[n as int].text,
{
    m.snapshot().get_matched_item(n).map(|item| MatchedLine {
        path: item.data.path.clone(),
        line_number: item.data.line_number,
        text: item.matcher_columns[0].to_string(),
    })
}

/// `nucleo::pattern::Pattern::indices` of the snapshot's pattern on the
/// `n`-th match, computed in `scratch` under the standard configuration. Each
/// position is an index into the text of the match, which has at most
/// `u32::MAX` characters, as nothing longer is pushed.
#[verifier::external_body]
pub(crate) fn match_positions(m: &Nucleo<CandidateLine>, scratch: &mut Matcher, n: u32) -> (r: Vec<u32>)
    requires
        n < matched(*m).len(),
    ensures
        r@ == matched(*m)[n as int].positions,
        forall|k: int| 0 <= k < r@.len() ==> r@[k] < u32::MAX,
{
    let snapshot = m.snapshot();
    let item = snapshot.get_matched_item(n).unwrap();
    let mut positions = Vec::new();
    scratch.config = Config::DEFAULT;
    snapshot.pattern().column_pattern(0).indices(item.matcher_columns[0].slice(..), scratch, &mut positions);
    positions
}

} // verus!
