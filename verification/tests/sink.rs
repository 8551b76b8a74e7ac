use html_rewriter::sink::OutputSink;

#[test]
fn new_sink_drains_to_nothing() {
    let mut sink = OutputSink::new();
    assert_eq!(sink.drain(), Vec::<u8>::new());
}

#[test]
fn drain_returns_the_appended_bytes_in_order() {
    let mut sink = OutputSink::new();
    sink.append(b"<p>");
    sink.append(b"");
    sink.append(b"text");
    sink.append(&[0, 255]);
    assert_eq!(sink.drain(), b"<p>text\x00\xff".to_vec());
}

#[test]
fn drain_empties_the_sink() {
    let mut sink = OutputSink::new();
    sink.append(b"once");
    assert_eq!(sink.drain(), b"once".to_vec());
    assert_eq!(sink.drain(), Vec::<u8>::new());
    assert_eq!(sink.drain(), Vec::<u8>::new());
}

#[test]
fn sink_takes_bytes_again_after_a_drain() {
    let mut sink = OutputSink::new();
    sink.append(b"first");
    assert_eq!(sink.drain(), b"first".to_vec());
    sink.append(b"second");
    assert_eq!(sink.drain(), b"second".to_vec());
}
