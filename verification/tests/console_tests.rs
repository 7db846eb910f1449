use guest_launcher::console::{split_lines, Forwarded, LineSplitter, LINE_FEED};

fn lines(items: &[&str]) -> Vec<Vec<u8>> {
    items.iter().map(|s| s.as_bytes().to_vec()).collect()
}

#[test]
fn hello_world_gives_two_records() {
    assert_eq!(split_lines(b"hello\nworld\n"), lines(&["hello", "world"]));
}

#[test]
fn hello_world_fed_to_the_forwarder() {
    let mut splitter = LineSplitter::new();
    let step = splitter.forward(b"hello\nworld\n");
    assert_eq!(step, Forwarded { records: lines(&["hello", "world"]), finished: false });
    let step = splitter.forward(b"");
    assert_eq!(step, Forwarded { records: vec![], finished: true });
}

#[test]
fn line_feed_is_byte_ten() {
    assert_eq!(LINE_FEED, b'\n');
}

#[test]
fn chunks_do_not_change_the_lines() {
    let mut splitter = LineSplitter::new();
    assert_eq!(splitter.feed(b"hel"), lines(&[]));
    assert_eq!(splitter.feed(b"lo\nwor"), lines(&["hello"]));
    assert_eq!(splitter.feed(b""), lines(&[]));
    assert_eq!(splitter.feed(b"ld\n"), lines(&["world"]));
    assert_eq!(splitter.finish(), None);
}

#[test]
fn every_cut_gives_the_same_lines() {
    let stream = b"one\n\ntwo\nthree without end";
    let whole = split_lines(stream);
    assert_eq!(whole, lines(&["one", "", "two", "three without end"]));
    for cut in 0..=stream.len() {
        let mut splitter = LineSplitter::new();
        let mut found = splitter.feed(&stream[..cut]);
        found.extend(splitter.feed(&stream[cut..]));
        found.extend(splitter.finish());
        assert_eq!(found, whole);
    }
}

#[test]
fn empty_lines_are_records() {
    assert_eq!(split_lines(b"\n\n"), lines(&["", ""]));
    assert_eq!(split_lines(b"\na\n"), lines(&["", "a"]));
}

#[test]
fn empty_stream_has_no_records() {
    assert_eq!(split_lines(b""), lines(&[]));
}

#[test]
fn last_line_without_line_feed_is_kept_whole() {
    assert_eq!(split_lines(b"a\nbc"), lines(&["a", "bc"]));
    let mut splitter = LineSplitter::new();
    assert_eq!(splitter.feed(b"bc"), lines(&[]));
    assert_eq!(splitter.finish(), Some(b"bc".to_vec()));
}

#[test]
fn carriage_returns_are_kept() {
    assert_eq!(split_lines(b"a\r\nb\r\n"), lines(&["a\r", "b\r"]));
}

#[test]
fn closed_console_ends_the_forwarder() {
    let mut splitter = LineSplitter::new();
    let step = splitter.forward(b"boot ok\nlogin");
    assert_eq!(step, Forwarded { records: lines(&["boot ok"]), finished: false });
    let step = splitter.forward(b"");
    assert_eq!(step, Forwarded { records: lines(&["login"]), finished: true });
    let step = splitter.forward(b"");
    assert_eq!(step, Forwarded { records: vec![], finished: true });
}

#[test]
fn records_hold_any_bytes_but_line_feeds() {
    let stream: Vec<u8> = (0..=255u8).collect();
    let found = split_lines(&stream);
    assert_eq!(found.len(), 2);
    assert_eq!(found[0], (0..10u8).collect::<Vec<u8>>());
    assert_eq!(found[1], (11..=255u8).collect::<Vec<u8>>());
}
