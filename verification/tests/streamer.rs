use testnet_orchestrator::streamer::{StreamAction, StreamEvent, Streamer, StreamerConfig};

fn line(text: &str) -> StreamEvent {
    StreamEvent::Line(text.to_string())
}

fn is_read(action: &StreamAction) -> bool {
    matches!(action, StreamAction::Read)
}

fn is_stop(action: &StreamAction) -> bool {
    matches!(action, StreamAction::Stop)
}

fn chunk(action: StreamAction) -> String {
    match action {
        StreamAction::Forward(chunk) => chunk,
        other => panic!("expected a chunk, got {:?}", other),
    }
}

#[test]
fn the_standard_is_ten_reads_and_no_empty_chunk() {
    let config = StreamerConfig::standard();
    assert_eq!(config.reads_per_batch, 10);
    assert!(config.suppress_empty);
}

#[test]
fn ten_reads_make_a_chunk() {
    let mut streamer = Streamer::new(StreamerConfig::standard());
    for i in 0..9 {
        assert!(is_read(&streamer.step(line(&format!("l{}\n", i)))));
        assert_eq!(streamer.reads, i + 1);
    }
    let sent = chunk(streamer.step(line("l9\n")));
    assert_eq!(sent, "l0\nl1\nl2\nl3\nl4\nl5\nl6\nl7\nl8\nl9\n");
    assert_eq!(streamer.batch, "");
    assert_eq!(streamer.reads, 0);
    assert!(is_read(&streamer.step(StreamEvent::Forwarded)));
    assert!(!streamer.ended);
}

#[test]
fn chunks_follow_each_other_in_order() {
    let mut streamer = Streamer::new(StreamerConfig { reads_per_batch: 3, suppress_empty: true });
    let mut sent = Vec::new();
    let mut read = String::new();
    for i in 0..10 {
        let text = format!("{}\n", i);
        read.push_str(&text);
        if let StreamAction::Forward(c) = streamer.step(line(&text)) {
            sent.push(c);
            assert!(is_read(&streamer.step(StreamEvent::Forwarded)));
        }
    }
    assert_eq!(sent, vec!["0\n1\n2\n", "3\n4\n5\n", "6\n7\n8\n"]);
    assert_eq!(streamer.batch, "9\n");
    assert_eq!(format!("{}{}", sent.concat(), streamer.batch), read);
}

#[test]
fn an_empty_chunk_is_dropped() {
    let mut streamer = Streamer::new(StreamerConfig { reads_per_batch: 2, suppress_empty: true });
    assert!(is_read(&streamer.step(line(""))));
    assert!(is_read(&streamer.step(line(""))));
    assert_eq!(streamer.reads, 0);
    assert!(is_read(&streamer.step(line(""))));
    assert_eq!(chunk(streamer.step(line("x\n"))), "x\n");
}

#[test]
fn an_empty_chunk_is_handed_on_where_it_is_asked_for() {
    let mut streamer = Streamer::new(StreamerConfig { reads_per_batch: 2, suppress_empty: false });
    assert!(is_read(&streamer.step(line(""))));
    assert_eq!(chunk(streamer.step(line(""))), "");
}

#[test]
fn one_read_per_chunk() {
    for reads_per_batch in [0, 1] {
        let mut streamer = Streamer::new(StreamerConfig { reads_per_batch, suppress_empty: true });
        assert_eq!(chunk(streamer.step(line("a\n"))), "a\n");
        assert_eq!(chunk(streamer.step(line("b\n"))), "b\n");
    }
}

#[test]
fn a_failed_read_ends_the_streamer() {
    let mut streamer = Streamer::new(StreamerConfig::standard());
    streamer.step(line("half\n"));
    assert!(is_stop(&streamer.step(StreamEvent::ReadFailed)));
    assert!(streamer.ended);
    assert!(is_stop(&streamer.step(line("more\n"))));
    assert!(is_stop(&streamer.step(StreamEvent::Forwarded)));
    assert_eq!(streamer.batch, "half\n");
    assert_eq!(streamer.reads, 1);
}

#[test]
fn a_closed_channel_ends_the_streamer() {
    let mut streamer = Streamer::new(StreamerConfig { reads_per_batch: 1, suppress_empty: true });
    assert_eq!(chunk(streamer.step(line("a\n"))), "a\n");
    assert!(is_stop(&streamer.step(StreamEvent::ChannelClosed)));
    assert!(streamer.ended);
    assert!(is_stop(&streamer.step(line("b\n"))));
}

#[test]
fn a_new_streamer_holds_nothing() {
    let streamer = Streamer::new(StreamerConfig::standard());
    assert_eq!(streamer.batch, "");
    assert_eq!(streamer.reads, 0);
    assert!(!streamer.ended);
}
