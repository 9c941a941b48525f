use text_channel::candidate::CandidateLine;
use text_channel::channel::{reparse_hint, Channel, MATCHER_TICK_TIMEOUT};
use text_channel::entry::{Entry, PreviewType};
use text_channel::index::Tick;

fn settle(channel: &mut Channel, total: u32, matched: u32) {
    let start = std::time::Instant::now();
    loop {
        channel.results(0, 0);
        if !channel.running() && channel.total_count() == total && channel.result_count() == matched {
            return;
        }
        assert!(start.elapsed().as_secs() < 15, "the index did not settle");
    }
}

fn channel_of(lines: &[&str]) -> Channel {
    let mut channel = Channel::new();
    let mut feed = channel.feed();
    for (i, line) in lines.iter().enumerate() {
        assert!(feed.push(CandidateLine::new("dir/file.rs".to_string(), line.to_string(), i + 1)));
    }
    settle(&mut channel, lines.len() as u32, lines.len() as u32);
    channel
}

fn key(e: &Entry) -> (String, Option<usize>, Option<String>, Option<Vec<(u32, u32)>>) {
    (e.name.clone(), e.line_number, e.value.clone(), e.value_match_ranges.clone())
}

#[test]
fn a_new_channel_is_empty() {
    let mut channel = Channel::new();
    assert_eq!(channel.result_count(), 0);
    assert_eq!(channel.total_count(), 0);
    assert!(!channel.running());
    assert!(channel.get_result(0).is_none());
    assert!(channel.results(10, 0).is_empty());
    assert_eq!(MATCHER_TICK_TIMEOUT, 2);
}

#[test]
fn counts_follow_the_index() {
    let mut channel = channel_of(&["alpha", "beta", "gamma", "alphabet"]);
    assert_eq!(channel.total_count(), 4);
    assert_eq!(channel.result_count(), 4);
    channel.find("alpha");
    settle(&mut channel, 4, 2);
    assert_eq!(channel.total_count(), 4);
    assert_eq!(channel.result_count(), 2);
    channel.find("zzz");
    settle(&mut channel, 4, 0);
    assert!(channel.results(10, 0).is_empty());
    channel.find("");
    settle(&mut channel, 4, 4);
}

#[test]
fn find_extends_and_replaces_patterns() {
    let mut channel = channel_of(&["foo", "foobar", "bar", "fob"]);
    channel.find("fo");
    settle(&mut channel, 4, 3);
    channel.find("foo");
    settle(&mut channel, 4, 2);
    channel.find("bar");
    settle(&mut channel, 4, 2);
    let values: Vec<String> = channel.results(10, 0).iter().map(|e| e.value.clone().unwrap()).collect();
    assert_eq!(values, vec!["bar".to_string(), "foobar".to_string()]);
}

#[test]
fn find_matches_with_smart_case() {
    let mut channel = channel_of(&["Foo", "foo", "FOO"]);
    channel.find("foo");
    settle(&mut channel, 3, 3);
    channel.find("Foo");
    settle(&mut channel, 3, 1);
    assert_eq!(channel.results(10, 0)[0].value.as_deref(), Some("Foo"));
}

#[test]
fn finding_the_same_pattern_again_changes_nothing() {
    let mut channel = channel_of(&["foo one", "bar two", "foo three", "baz four"]);
    channel.find("foo");
    settle(&mut channel, 4, 2);
    let first: Vec<_> = channel.results(10, 0).iter().map(key).collect();
    channel.find("foo");
    assert_eq!(channel.result_count(), 2);
    assert_eq!(channel.total_count(), 4);
    let second: Vec<_> = channel.results(10, 0).iter().map(key).collect();
    assert_eq!(first, second);
    assert_eq!(first.len(), 2);
    assert!(!channel.running());
}

#[test]
fn results_build_entries_with_name_value_and_line_number() {
    let mut channel = channel_of(&["only line"]);
    let entries = channel.results(10, 0);
    assert_eq!(entries.len(), 1);
    let e = &entries[0];
    assert_eq!(e.name, "dir/file.rs1");
    assert_eq!(e.display_name.as_deref(), Some("dir/file.rs"));
    assert_eq!(e.display_name(), "dir/file.rs");
    assert_eq!(e.value.as_deref(), Some("only line"));
    assert_eq!(e.value_match_ranges, Some(vec![]));
    assert_eq!(e.icon, Some(devicons::FileIcon::from("dir/file.rs")));
    assert_eq!(e.line_number, Some(1));
    assert_eq!(e.preview_type, PreviewType::Files);
}

#[test]
fn highlight_ranges_cover_the_match() {
    let mut channel = channel_of(&["xaxby ab"]);
    channel.find("ab");
    settle(&mut channel, 1, 1);
    let entries = channel.results(10, 0);
    let ranges = entries[0].value_match_ranges.clone().unwrap();
    assert_eq!(ranges, vec![(6, 7), (7, 8)]);
    assert!(ranges.windows(2).all(|w| w[0].0 < w[1].0));
    assert!(ranges.iter().all(|r| r.1 == r.0 + 1));
}

#[test]
fn highlight_ranges_of_two_words_are_sorted_and_unique() {
    let mut channel = channel_of(&["let value = other_value;"]);
    channel.find("value val");
    settle(&mut channel, 1, 1);
    let entries = channel.results(10, 0);
    let ranges = entries[0].value_match_ranges.clone().unwrap();
    assert!(!ranges.is_empty());
    assert!(ranges.windows(2).all(|w| w[0].0 < w[1].0));
    assert!(ranges.iter().all(|r| r.1 == r.0 + 1 && (r.1 as usize) <= "let value = other_value;".len()));
}

#[test]
fn pages_tile_the_matches() {
    let lines: Vec<String> = (0..23).map(|i| format!("entry foo {:02}", i)).collect();
    let refs: Vec<&str> = lines.iter().map(|s| s.as_str()).collect();
    let mut channel = channel_of(&refs);
    channel.find("foo");
    settle(&mut channel, 23, 23);
    let all: Vec<_> = channel.results(100, 0).iter().map(key).collect();
    assert_eq!(all.len(), 23);
    let mut tiled = Vec::new();
    let mut offset = 0;
    while offset < channel.result_count() {
        let page = channel.results(5, offset);
        assert_eq!(page.len(), if offset + 5 <= 23 { 5 } else { 3 });
        tiled.extend(page.iter().map(key));
        offset += 5;
    }
    assert_eq!(tiled, all);
    let mut names: Vec<String> = tiled.iter().map(|k| k.0.clone()).collect();
    names.sort();
    names.dedup();
    assert_eq!(names.len(), 23);
}

#[test]
fn a_page_behind_the_end_is_empty() {
    let mut channel = channel_of(&["one", "two", "three"]);
    assert_eq!(channel.results(10, 2).len(), 1);
    assert!(channel.results(10, 3).is_empty());
    assert!(channel.results(10, 4).is_empty());
    assert!(channel.results(0, 0).is_empty());
    assert!(channel.results(u32::MAX, u32::MAX).is_empty());
    assert_eq!(channel.results(u32::MAX, 1).len(), 2);
    assert_eq!(channel.results(u32::MAX, 0).len(), 3);
}

#[test]
fn get_result_names_the_file_and_the_line() {
    let mut channel = channel_of(&["one", "two"]);
    channel.find("two");
    settle(&mut channel, 2, 1);
    let e = channel.get_result(0).unwrap();
    assert_eq!(e.name, "dir/file.rs");
    assert_eq!(e.display_name.as_deref(), Some("dir/file.rs:2"));
    assert_eq!(e.value, None);
    assert_eq!(e.value_match_ranges, None);
    assert_eq!(e.icon, Some(devicons::FileIcon::from("dir/file.rs")));
    assert_eq!(e.line_number, Some(2));
    assert_eq!(e.preview_type, PreviewType::Files);
    assert!(channel.get_result(1).is_none());
    assert!(channel.get_result(u32::MAX).is_none());
}

#[test]
fn get_result_does_not_poll_the_index() {
    let channel = {
        let channel = Channel::new();
        let mut feed = channel.feed();
        feed.push(CandidateLine::new("a".to_string(), "line".to_string(), 1));
        channel
    };
    let start = std::time::Instant::now();
    while start.elapsed().as_millis() < 50 {
        assert!(channel.get_result(0).is_none());
    }
    assert_eq!(channel.total_count(), 0);
}

#[test]
fn shutdown_without_a_task_does_nothing() {
    let mut channel = channel_of(&["one"]);
    channel.shutdown();
    channel.shutdown();
    assert_eq!(channel.results(10, 0).len(), 1);
}

#[test]
fn shutdown_cancels_the_attached_task_and_may_be_repeated() {
    let runtime = tokio::runtime::Builder::new_current_thread().build().unwrap();
    runtime.block_on(async {
        let mut channel = channel_of(&["one"]);
        let (sender, receiver) = std::sync::mpsc::channel::<()>();
        let handle = tokio::spawn(async move {
            let _keep = sender;
            std::future::pending::<()>().await;
        });
        channel.attach(handle);
        assert_eq!(channel.total_count(), 1);
        channel.shutdown();
        channel.shutdown();
        tokio::task::yield_now().await;
        tokio::task::yield_now().await;
        assert!(receiver.try_recv().is_err());
        assert!(matches!(receiver.try_recv(), Err(std::sync::mpsc::TryRecvError::Disconnected)));
        channel.shutdown();
        assert_eq!(channel.results(10, 0).len(), 1);
    });
}

#[test]
fn shutdown_after_the_task_has_ended_is_safe() {
    let runtime = tokio::runtime::Builder::new_current_thread().build().unwrap();
    runtime.block_on(async {
        let mut channel = Channel::new();
        let handle = tokio::spawn(async {});
        tokio::task::yield_now().await;
        channel.attach(handle);
        channel.shutdown();
        channel.shutdown();
    });
}

#[test]
fn a_candidate_with_unicode_text_is_matched() {
    let mut channel = channel_of(&["caf\u{e9} cr\u{e8}me", "plain"]);
    channel.find("creme");
    settle(&mut channel, 2, 1);
    let entries = channel.results(10, 0);
    assert_eq!(entries[0].value.as_deref(), Some("caf\u{e9} cr\u{e8}me"));
    assert_eq!(
        entries[0].value_match_ranges,
        Some(vec![(5, 6), (6, 7), (7, 8), (8, 9), (9, 10)])
    );
}

#[test]
fn reparse_hint_tells_extensions_from_replacements() {
    assert_eq!(reparse_hint("foo", "foo"), None);
    assert_eq!(reparse_hint("", ""), None);
    assert_eq!(reparse_hint("", "f"), Some(true));
    assert_eq!(reparse_hint("fo", "foo"), Some(true));
    assert_eq!(reparse_hint("foo", "fo"), Some(false));
    assert_eq!(reparse_hint("foo", "bar"), Some(false));
    assert_eq!(reparse_hint("foo", ""), Some(false));
    assert_eq!(reparse_hint("caf\u{e9}", "caf\u{e9}s"), Some(true));
    assert_eq!(reparse_hint("caf\u{e9}", "cafe"), Some(false));
}

#[test]
fn page_reads_the_snapshot_without_polling() {
    let mut channel = channel_of(&["one", "two", "three"]);
    let polled: Vec<_> = channel.results(2, 1).iter().map(key).collect();
    let read: Vec<_> = channel.page(2, 1).iter().map(key).collect();
    assert_eq!(polled, read);
    assert_eq!(read.len(), 2);
    assert!(channel.page(2, 3).is_empty());
    assert!(channel.page(u32::MAX, u32::MAX).is_empty());
    // What was pushed since the last poll is not seen.
    let mut feed = channel.feed();
    feed.push(CandidateLine::new("dir/file.rs".to_string(), "four".to_string(), 4));
    assert_eq!(channel.page(10, 0).len(), 3);
    assert_eq!(channel.total_count(), 3);
    settle(&mut channel, 4, 4);
    assert_eq!(channel.page(10, 0).len(), 4);
}

#[test]
fn refresh_takes_note_of_a_poll() {
    let mut channel = channel_of(&["one", "two"]);
    assert!(!channel.running());
    channel.refresh(Tick { changed: false, running: true });
    assert!(channel.running());
    assert_eq!(channel.result_count(), 2);
    assert_eq!(channel.total_count(), 2);
    channel.refresh(Tick { changed: false, running: false });
    assert!(!channel.running());
    // Where the snapshot may have changed the counts are read anew from it.
    let mut feed = channel.feed();
    feed.push(CandidateLine::new("dir/file.rs".to_string(), "three".to_string(), 3));
    channel.refresh(Tick { changed: true, running: true });
    assert!(channel.running());
    assert_eq!(channel.total_count(), 2);
    assert_eq!(channel.page(10, 0).len(), 2);
    settle(&mut channel, 3, 3);
    channel.refresh(Tick { changed: true, running: false });
    assert_eq!(channel.total_count(), 3);
    assert_eq!(channel.result_count(), 3);
}
