use homehelper::framing::LineBuffer;

#[test]
fn complete_lines_come_out_in_order() {
    let mut buf = LineBuffer::new();
    buf.push_bytes(b"workspace>>3\nfullscreen>>1\n");
    assert_eq!(buf.next_line(), Some(b"workspace>>3".to_vec()));
    assert_eq!(buf.next_line(), Some(b"fullscreen>>1".to_vec()));
    assert_eq!(buf.next_line(), None);
}

#[test]
fn a_fragment_waits_for_its_newline() {
    let mut buf = LineBuffer::new();
    buf.push_bytes(b"workspace>");
    assert_eq!(buf.next_line(), None);
    buf.push_bytes(b">3\nsub");
    assert_eq!(buf.next_line(), Some(b"workspace>>3".to_vec()));
    assert_eq!(buf.next_line(), None);
    buf.push_bytes(b"map>>\n");
    assert_eq!(buf.next_line(), Some(b"submap>>".to_vec()));
}

#[test]
fn empty_lines_are_framed_too() {
    let mut buf = LineBuffer::new();
    buf.push_bytes(b"\n\nx\n");
    assert_eq!(buf.next_line(), Some(Vec::new()));
    assert_eq!(buf.next_line(), Some(Vec::new()));
    assert_eq!(buf.next_line(), Some(b"x".to_vec()));
    assert_eq!(buf.next_line(), None);
}

#[test]
fn empty_buffer_yields_nothing() {
    let mut buf = LineBuffer::new();
    assert_eq!(buf.next_line(), None);
    buf.push_bytes(b"");
    assert_eq!(buf.next_line(), None);
}
