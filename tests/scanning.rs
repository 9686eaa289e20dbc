use collection_scan::{
    chunk_bounds, chunk_size, decode_list, encode_list, get_required_metadata, worker_count,
    DirectoryListing, DirectoryWalk, MonitorAction, ScanState, UnitOutcome,
};

fn strings(items: &[&str]) -> Vec<String> {
    items.iter().map(|s| s.to_string()).collect()
}

fn listing(files: &[&str], subdirectories: &[&str]) -> DirectoryListing {
    DirectoryListing { files: strings(files), subdirectories: strings(subdirectories) }
}

#[test]
fn fileless_tree_yields_nothing() {
    let mut walk = DirectoryWalk::new("/c");
    let root = walk.next_directory().unwrap();
    assert_eq!(walk.report(root, Ok(listing(&[], &["/c/a", "/c/b"]))), Ok(()));
    while let Some(dir) = walk.next_directory() {
        let sub = if dir.path == "/c/a" { vec!["/c/a/deep"] } else { vec![] };
        assert_eq!(walk.report(dir, Ok(listing(&[], &sub))), Ok(()));
    }
    assert!(walk.is_done());
    let (groups, warnings) = walk.into_results();
    assert!(groups.is_empty());
    assert!(warnings.is_empty());
}

#[test]
fn directories_with_files_become_groups() {
    let mut walk = DirectoryWalk::new("/c");
    let root = walk.next_directory().unwrap();
    assert_eq!(root.parent, None);
    walk.report(root, Ok(listing(&["/c/readme"], &["/c/u"]))).unwrap();
    let sub = walk.next_directory().unwrap();
    assert_eq!(sub.path, "/c/u");
    assert_eq!(sub.parent.as_deref(), Some("/c"));
    walk.report(sub, Ok(listing(&["/c/u/p.jpg", "/c/u/q.jpg"], &[]))).unwrap();
    assert!(walk.next_directory().is_none());
    let (groups, warnings) = walk.into_results();
    assert_eq!(groups.len(), 2);
    assert_eq!(groups[0].directory, "/c");
    assert_eq!(groups[1].files, strings(&["/c/u/p.jpg", "/c/u/q.jpg"]));
    assert!(warnings.is_empty());
}

#[test]
fn unreadable_child_becomes_a_warning() {
    let mut walk = DirectoryWalk::new("/c");
    let root = walk.next_directory().unwrap();
    walk.report(root, Ok(listing(&[], &["/c/locked"]))).unwrap();
    let locked = walk.next_directory().unwrap();
    assert_eq!(walk.report(locked, Err("permission denied".to_string())), Ok(()));
    let (groups, warnings) = walk.into_results();
    assert!(groups.is_empty());
    assert_eq!(warnings, strings(&["Failed to read some child of '/c': permission denied"]));
}

#[test]
fn unreadable_root_ends_the_walk() {
    let mut walk = DirectoryWalk::new("/missing");
    let root = walk.next_directory().unwrap();
    assert_eq!(
        walk.report(root, Err("not found".to_string())),
        Err("Unexpected error while reading collection: not found".to_string())
    );
}

#[test]
fn list_round_trip() {
    let list = strings(&["x", "y"]);
    let text = encode_list(&list);
    assert_eq!(text, "x\ny");
    assert_eq!(decode_list(&text), list);
}

#[test]
fn list_text_is_read_by_lines() {
    assert_eq!(decode_list(""), Vec::<String>::new());
    assert_eq!(decode_list("\n"), strings(&[""]));
    assert_eq!(decode_list("a\r\nb\n"), strings(&["a", "b"]));
    assert_eq!(decode_list("a\r"), strings(&["a\r"]));
    assert_eq!(encode_list(&vec![]), "");
}

#[test]
fn second_scan_cancels_the_first() {
    let mut state = ScanState::new();
    let first = state.start_scan().unwrap();
    assert!(state.begin_unit(first, "/c/u/one"));
    state.record_outcome(first, "/c/u/one", UnitOutcome::Parsed(get_required_metadata("/c", "/c/u/one")));
    let second = state.start_scan().unwrap();
    assert_ne!(first, second);
    assert!(!state.begin_unit(first, "/c/u/two"));
    state.record_outcome(
        first,
        "/c/u/three",
        UnitOutcome::Parsed(get_required_metadata("/c", "/c/u/three")),
    );
    assert_eq!(state.monitor(first, true), MonitorAction::Abort);
    let polled = state.poll();
    assert!(!polled.finished);
    assert!(polled.works.is_empty());
    assert_eq!(
        polled.warnings,
        strings(&["Parsing work '/c/u/two' was canceled", "Parsing work '/c/u/three' was canceled"])
    );
    assert!(state.begin_unit(second, "/c/u/one"));
    state.record_outcome(second, "/c/u/one", UnitOutcome::Parsed(get_required_metadata("/c", "/c/u/one")));
    assert_eq!(state.monitor(second, false), MonitorAction::Wait);
    assert_eq!(state.monitor(second, true), MonitorAction::Finished);
    let polled = state.poll();
    assert!(polled.finished);
    assert_eq!(polled.works.len(), 1);
    assert_eq!(polled.works[0].title, "one");
}

#[test]
fn second_poll_is_empty() {
    let mut state = ScanState::new();
    let scan = state.start_scan().unwrap();
    state.record_outcome(scan, "/c/u/w", UnitOutcome::Parsed(get_required_metadata("/c", "/c/u/w")));
    state.record_warning(scan, "a warning".to_string());
    let first = state.poll();
    assert_eq!(first.works.len(), 1);
    assert_eq!(first.warnings, strings(&["a warning"]));
    let second = state.poll();
    assert!(second.works.is_empty());
    assert!(second.warnings.is_empty());
    assert_eq!(second.finished, first.finished);
}

#[test]
fn works_get_keys_in_order() {
    let mut state = ScanState::new();
    let scan = state.start_scan().unwrap();
    state.record_outcome(scan, "/c/a", UnitOutcome::Parsed(get_required_metadata("/c", "/c/a")));
    state.record_outcome(scan, "/c/b", UnitOutcome::NotAWork);
    state.record_outcome(scan, "/c/d", UnitOutcome::Parsed(get_required_metadata("/c", "/c/d")));
    let polled = state.poll();
    let keys: Vec<u64> = polled.works.iter().map(|w| w.key).collect();
    assert_eq!(keys, vec![0, 1]);
}

#[test]
fn parse_failure_becomes_a_warning() {
    let mut state = ScanState::new();
    let scan = state.start_scan().unwrap();
    state.record_outcome(scan, "/c/bad", UnitOutcome::Failed("disk error".to_string()));
    let polled = state.poll();
    assert!(polled.works.is_empty());
    assert_eq!(polled.warnings, strings(&["Failed to parse '/c/bad': disk error"]));
}

#[test]
fn stale_warnings_are_dropped() {
    let mut state = ScanState::new();
    let first = state.start_scan().unwrap();
    state.start_scan().unwrap();
    state.record_warning(first, "old".to_string());
    assert!(state.poll().warnings.is_empty());
    assert!(!state.is_current(first));
    assert_eq!(state.generation(), 2);
}

#[test]
fn workers_leave_one_thread() {
    assert_eq!(worker_count(0), 1);
    assert_eq!(worker_count(1), 1);
    assert_eq!(worker_count(2), 1);
    assert_eq!(worker_count(8), 7);
}

#[test]
fn chunks_round_up() {
    assert_eq!(chunk_size(10, 3), 4);
    assert_eq!(chunk_size(9, 3), 3);
    assert_eq!(chunk_size(0, 3), 1);
    assert_eq!(chunk_bounds(10, 4), vec![(0, 4), (4, 8), (8, 10)]);
    assert_eq!(chunk_bounds(5, 1), vec![(0, 5)]);
    assert_eq!(chunk_bounds(0, 8), vec![]);
    assert_eq!(chunk_bounds(3, 16), vec![(0, 1), (1, 2), (2, 3)]);
}
