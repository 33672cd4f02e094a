use gibberish::worker::{DrainStep, IoErrorClass, ReadOutcome};
use gibberish::screen::VirtualTerminal;

#[test]
fn screen_shows_fed_output() {
    let mut vt = VirtualTerminal::new(10, 2);
    vt.feed(b"hi\r\nyo");
    let snap = vt.snapshot();
    assert_eq!(snap.cols, 10);
    assert_eq!(snap.rows, 2);
    assert_eq!(snap.cursor, Some((2, 1)));
    assert_eq!(snap.lines.len(), 2);
    assert_eq!(snap.lines[0].trim_end(), "hi");
    assert_eq!(snap.render(), "hi\nyo▮\nCursor info: row=1, col=2, char=\" \"");
}

#[test]
fn screen_replaces_malformed_utf8() {
    let mut vt = VirtualTerminal::new(5, 1);
    vt.feed(&[b'a', 0xff, b'b']);
    let snap = vt.snapshot();
    assert_eq!(snap.lines[0].trim_end(), "a\u{FFFD}b");
}

#[test]
fn absorbs_reads_while_draining() {
    let mut vt = VirtualTerminal::new(10, 2);
    let buf = *b"ok\xffzzzzzz";
    assert_eq!(vt.absorb_read(ReadOutcome::Data(3), &buf), DrainStep::Feed(3));
    assert_eq!(
        vt.absorb_read(ReadOutcome::Failed(IoErrorClass::Interrupted), &buf),
        DrainStep::Retry
    );
    assert_eq!(
        vt.absorb_read(ReadOutcome::Failed(IoErrorClass::WouldBlock), &buf),
        DrainStep::Finished { eof: false }
    );
    assert_eq!(vt.absorb_read(ReadOutcome::Closed, &buf), DrainStep::Finished { eof: true });
    let snap = vt.snapshot();
    assert_eq!(snap.lines[0].trim_end(), "ok\u{FFFD}");
    assert_eq!(snap.lines.len(), 2);
}

#[test]
fn unchanged_screen_gives_the_same_snapshot() {
    let mut vt = VirtualTerminal::new(8, 3);
    vt.feed(b"$ ls\r\nfile\r\n$ ");
    let before = vt.snapshot();
    let after = vt.snapshot();
    assert_eq!(before.lines, after.lines);
    assert_eq!(before.cursor, after.cursor);
    assert_eq!(after.lines.len(), 3);
}
