use safe_gui_core::tailer::{log_file_path, resolve_log_path, LogTailer, POLL_INTERVAL_MS, SETTLE_DELAY_MS};

fn lines_of(v: Vec<Vec<u8>>) -> Vec<String> {
    v.into_iter().map(|l| String::from_utf8(l).unwrap()).collect()
}

#[test]
fn three_lines_in_order() {
    let mut t = LogTailer::new();
    let lines = lines_of(t.feed(b"a\nb\nc\n"));
    assert_eq!(lines, vec!["a", "b", "c"]);
    assert!(t.pending_bytes().is_empty());
}

#[test]
fn chunking_does_not_change_delivery() {
    // the same bytes fed in pieces deliver the same lines, in the same order
    let mut whole = LogTailer::new();
    let all = lines_of(whole.feed(b"a\nb\nc\n"));

    let mut split = LogTailer::new();
    let mut got = lines_of(split.feed(b"a\nb"));
    assert_eq!(got, vec!["a"]);
    got.extend(lines_of(split.feed(b"\nc\n")));
    assert_eq!(got, all);
    assert!(split.pending_bytes().is_empty());
}

#[test]
fn partial_line_is_held_back() {
    let mut t = LogTailer::new();
    let lines = t.feed(b"abc");
    assert!(lines.is_empty());
    assert_eq!(t.pending_bytes().as_slice(), b"abc");
    let lines = lines_of(t.feed(b"def\n"));
    assert_eq!(lines, vec!["abcdef"]);
    assert!(t.pending_bytes().is_empty());
}

#[test]
fn carriage_returns_are_stripped() {
    let mut t = LogTailer::new();
    let lines = lines_of(t.feed(b"a\r\nb\r\n"));
    assert_eq!(lines, vec!["a", "b"]);
}

#[test]
fn byte_by_byte_feed_keeps_order() {
    let data = b"first line\nsecond line\nthird\n";
    let mut t = LogTailer::new();
    let mut got: Vec<String> = Vec::new();
    for b in data.iter() {
        got.extend(lines_of(t.feed(std::slice::from_ref(b))));
    }
    assert_eq!(got, vec!["first line", "second line", "third"]);
}

#[test]
fn empty_lines_are_delivered() {
    let mut t = LogTailer::new();
    let lines = lines_of(t.feed(b"\n\nx\n"));
    assert_eq!(lines, vec!["", "", "x"]);
}

#[test]
fn log_path_is_joined_below_home() {
    let p = log_file_path("/home/someone");
    assert_eq!(p, "/home/someone/.safe/node/local-node/sn_node.log");
}

#[test]
fn resolved_log_path_ends_in_subpath() {
    if let Some(p) = resolve_log_path() {
        assert!(p.ends_with("/.safe/node/local-node/sn_node.log"));
    }
}

#[test]
fn poll_intervals_are_fixed() {
    assert_eq!(SETTLE_DELAY_MS, 2000);
    assert_eq!(POLL_INTERVAL_MS, 10);
}
