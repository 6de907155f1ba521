use bytes::Bytes;
use h2conn::connection::{EngineAction, EngineEvent, HandshakeEvent, Http2, Outcome, Phase};
use h2conn::dispatch::{dispatch, starts_with};
use h2conn::entry::{BodyAction, BodyEvent, CompletionEvent, Entry, IoEvent, TaskAction, TaskPoll};
use h2conn::payload::{parse_encoding, select_sink, ContentEncoding, SinkKind};
use h2conn::prefix::PrefixBuffer;

fn serving(prefixes: &[&str]) -> Http2 {
    let mut c = Http2::new(prefixes.iter().map(|p| p.as_bytes().to_vec()).collect());
    assert_eq!(c.on_handshake(HandshakeEvent::Ready), None);
    c
}

fn stream(path: &str, enc: Option<&str>) -> EngineEvent {
    EngineEvent::Stream {
        path: path.as_bytes().to_vec(),
        encoding: enc.map(|e| e.as_bytes().to_vec()),
    }
}

#[test]
fn prefix_replays_in_chunks_then_delegates() {
    let mut p = PrefixBuffer::new(Bytes::from(b"PRI * HTTP".to_vec()));
    let mut buf = [0u8; 4];
    assert_eq!(p.read(&mut buf), Some(4));
    assert_eq!(&buf, b"PRI ");
    assert_eq!(p.read(&mut buf), Some(4));
    assert_eq!(&buf, b"* HT");
    let mut big = [9u8; 8];
    assert_eq!(p.read(&mut big), Some(2));
    assert_eq!(&big, &[b'T', b'P', 9, 9, 9, 9, 9, 9]);
    assert_eq!(p.read(&mut big), None);
    assert!(p.unread.is_none());
}

#[test]
fn prefix_exact_fit_and_empty_buffer() {
    let mut p = PrefixBuffer::new(Bytes::from(b"abc".to_vec()));
    let mut empty: [u8; 0] = [];
    assert_eq!(p.read(&mut empty), Some(0));
    let mut buf = [0u8; 3];
    assert_eq!(p.read(&mut buf), Some(3));
    assert_eq!(&buf, b"abc");
    assert_eq!(p.read(&mut buf), None);
}

#[test]
fn encodings_are_read_by_name() {
    assert_eq!(parse_encoding(b"gzip"), ContentEncoding::Gzip);
    assert_eq!(parse_encoding(b"br"), ContentEncoding::Br);
    assert_eq!(parse_encoding(b"deflate"), ContentEncoding::Deflate);
    assert_eq!(parse_encoding(b"identity"), ContentEncoding::Identity);
    assert_eq!(parse_encoding(b"zstd"), ContentEncoding::Auto);
    assert_eq!(parse_encoding(b""), ContentEncoding::Auto);
}

#[test]
fn sink_choice_follows_header() {
    assert_eq!(select_sink(None), SinkKind::Passthrough);
    assert_eq!(select_sink(Some(b"identity")), SinkKind::Passthrough);
    assert_eq!(select_sink(Some(b"unknown")), SinkKind::Passthrough);
    assert_eq!(select_sink(Some(b"gzip")), SinkKind::Decoding(ContentEncoding::Gzip));
    assert_eq!(select_sink(Some(b"br")), SinkKind::Decoding(ContentEncoding::Br));
}

#[test]
fn dispatch_takes_first_matching_prefix() {
    let ps = vec![b"/api".to_vec(), b"/".to_vec(), b"/api/v2".to_vec()];
    assert_eq!(dispatch(&ps, b"/api/v2/x"), Some(0));
    assert_eq!(dispatch(&ps, b"/static"), Some(1));
    let only = vec![b"/api".to_vec()];
    assert_eq!(dispatch(&only, b"/ap"), None);
    assert_eq!(dispatch(&only, b"/other"), None);
    assert_eq!(dispatch(&Vec::new(), b"/"), None);
    assert!(starts_with(b"/api/x", &b"/api".to_vec()));
    assert!(!starts_with(b"/a", &b"/api".to_vec()));
}

#[test]
fn body_chunks_feed_in_order_and_end_closes() {
    let mut e = Entry::new(Some(0), SinkKind::Passthrough);
    assert!(e.body_open());
    match e.on_body(BodyEvent::Chunk(Bytes::from(b"ab".to_vec()))) {
        BodyAction::Feed(c) => assert_eq!(&c[..], b"ab"),
        _ => panic!("chunk not fed"),
    }
    assert!(matches!(e.on_body(BodyEvent::NotReady), BodyAction::Stop));
    assert!(matches!(e.on_body(BodyEvent::Failed), BodyAction::SetError));
    assert!(e.body_open());
    assert!(matches!(e.on_body(BodyEvent::End), BodyAction::Stop));
    assert!(!e.body_open());
    assert!(!e.eof && !e.error);
}

#[test]
fn capacity_grants_are_exact_deltas() {
    let mut e = Entry::new(None, SinkKind::Passthrough);
    assert_eq!(e.on_capacity(0), None);
    assert_eq!(e.on_capacity(100), Some(100));
    assert_eq!(e.on_capacity(100), None);
    assert_eq!(e.on_capacity(160), Some(60));
    assert_eq!(e.on_capacity(40), None);
    assert_eq!(e.capacity, 40);
    assert_eq!(e.on_capacity(50), Some(10));
}

#[test]
fn task_io_and_completion_flags() {
    let mut e = Entry::new(Some(0), SinkKind::Passthrough);
    assert_eq!(e.next_poll(), TaskPoll::Io);
    assert_eq!(e.on_io(IoEvent::NotReady), TaskAction::Nothing);
    assert_eq!(e.on_io(IoEvent::Ready(false)), TaskAction::Progress);
    assert!(e.eof && !e.finished && !e.is_complete());
    assert_eq!(e.next_poll(), TaskPoll::Completion);
    assert_eq!(e.on_completion(CompletionEvent::NotReady), TaskAction::Nothing);
    assert_eq!(e.on_completion(CompletionEvent::Ready), TaskAction::Progress);
    assert!(e.is_complete());
    assert_eq!(e.next_poll(), TaskPoll::Idle);
}

#[test]
fn task_failures_set_error() {
    let mut e = Entry::new(Some(0), SinkKind::Passthrough);
    assert_eq!(e.on_io(IoEvent::Failed), TaskAction::Reset);
    assert!(e.eof && e.error && !e.finished && e.is_complete());

    let mut f = Entry::new(Some(0), SinkKind::Passthrough);
    f.on_io(IoEvent::Ready(false));
    assert_eq!(f.on_completion(CompletionEvent::Failed), TaskAction::Nothing);
    assert!(f.finished && f.error && f.is_complete());
}

#[test]
fn handshake_outcomes() {
    let mut c = Http2::new(vec![]);
    assert_eq!(c.phase, Phase::Handshaking);
    assert_eq!(c.on_handshake(HandshakeEvent::NotReady), Some(Outcome::Pending));
    assert_eq!(c.on_handshake(HandshakeEvent::Failed), Some(Outcome::Failed));
    assert_eq!(c.phase, Phase::Handshaking);
    assert_eq!(c.on_handshake(HandshakeEvent::Ready), None);
    assert_eq!(c.phase, Phase::Serving);
}

#[test]
fn streams_each_dispatched_once() {
    let mut c = serving(&["/a", "/b", "/"]);
    let paths = ["/b/1", "/a", "/zzz", "/a/b"];
    let want = [Some(1), Some(0), Some(2), Some(0)];
    for (p, w) in paths.iter().zip(want.iter()) {
        match c.on_engine(stream(p, None)) {
            EngineAction::Accept { handler, sink } => {
                assert_eq!(handler, *w);
                assert_eq!(sink, SinkKind::Passthrough);
            }
            _ => panic!("stream not accepted"),
        }
    }
    assert_eq!(c.entries.len(), 4);
    let got: Vec<Option<usize>> = c.entries.iter().map(|e| e.handler).collect();
    assert_eq!(got, want.to_vec());
}

#[test]
fn straggler_waits_for_older_entry() {
    let mut c = serving(&["/"]);
    for _ in 0..3 {
        c.on_engine(stream("/", None));
    }
    // the middle exchange completes first
    c.entries[1].on_io(IoEvent::Ready(true));
    assert!(c.entries[1].is_complete());
    assert_eq!(c.prune(), 0);
    assert_eq!(c.entries.len(), 3);
    assert_eq!(c.entries[1].next_poll(), TaskPoll::Idle);
    // the head completes: both leave, the third stays
    c.entries[0].on_io(IoEvent::Ready(true));
    assert_eq!(c.prune(), 2);
    assert_eq!(c.entries.len(), 1);
    assert!(!c.entries[0].is_complete());
    c.entries[0].on_io(IoEvent::Failed);
    assert_eq!(c.prune(), 1);
    assert!(c.entries.is_empty());
}

#[test]
fn closed_peer_accepts_no_streams() {
    let mut c = serving(&["/"]);
    c.on_engine(stream("/", None));
    assert_eq!(c.on_engine(EngineEvent::End), EngineAction::Disconnect { drop_timer: false });
    assert!(c.disconnected);
    assert_eq!(c.on_engine(stream("/x", None)), EngineAction::Ignore);
    assert_eq!(c.on_engine(EngineEvent::NotReady), EngineAction::Ignore);
    assert_eq!(c.entries.len(), 1);
}

#[test]
fn session_failure_disconnects_and_drops_timer() {
    let mut c = serving(&["/"]);
    assert_eq!(c.on_engine(EngineEvent::NotReady), EngineAction::ArmTimer);
    assert!(c.timer_armed);
    assert_eq!(c.on_engine(EngineEvent::Failed), EngineAction::Disconnect { drop_timer: true });
    assert!(c.disconnected && !c.timer_armed);
    assert_eq!(c.poll(false), Some(Outcome::Done));
}

#[test]
fn idle_timer_armed_only_when_empty_and_unarmed() {
    let mut c = serving(&["/"]);
    assert_eq!(c.on_engine(EngineEvent::NotReady), EngineAction::ArmTimer);
    assert!(c.timer_armed);
    assert_eq!(c.on_engine(EngineEvent::NotReady), EngineAction::Wait);
    assert_eq!(c.on_timer(false), None);
    assert_eq!(c.on_timer(true), Some(Outcome::Done));
    assert!(matches!(c.on_engine(stream("/", None)), EngineAction::Accept { .. }));
    assert!(!c.timer_armed);
    assert_eq!(c.on_timer(true), None);
    assert_eq!(c.on_engine(EngineEvent::NotReady), EngineAction::Wait);
    assert!(!c.timer_armed);
}

#[test]
fn single_request_runs_to_completion() {
    let mut c = serving(&["/hello"]);
    assert!(matches!(
        c.on_engine(stream("/hello", None)),
        EngineAction::Accept { handler: Some(0), sink: SinkKind::Passthrough }
    ));
    assert_eq!(c.entries.len(), 1);
    // first pass: no body, the task consumes the request
    let e = &mut c.entries[0];
    assert!(matches!(e.on_body(BodyEvent::End), BodyAction::Stop));
    assert_eq!(e.next_poll(), TaskPoll::Io);
    assert_eq!(e.on_io(IoEvent::Ready(false)), TaskAction::Progress);
    assert!(e.eof);
    assert_eq!(c.prune(), 0);
    assert_eq!(c.poll(true), None);
    // next pass: the task finishes
    let e = &mut c.entries[0];
    assert_eq!(e.next_poll(), TaskPoll::Completion);
    assert_eq!(e.on_completion(CompletionEvent::Ready), TaskAction::Progress);
    assert_eq!(c.prune(), 1);
    assert!(c.entries.is_empty());
    assert_eq!(c.on_engine(EngineEvent::NotReady), EngineAction::ArmTimer);
    assert_eq!(c.poll(false), Some(Outcome::Pending));
    // the peer closes
    assert_eq!(c.on_engine(EngineEvent::End), EngineAction::Disconnect { drop_timer: false });
    assert_eq!(c.poll(true), None);
    assert_eq!(c.prune(), 0);
    assert_eq!(c.poll(false), Some(Outcome::Done));
}

#[test]
fn unmatched_path_gets_not_found_and_prunes() {
    let mut c = serving(&["/api"]);
    assert!(matches!(
        c.on_engine(stream("/missing", None)),
        EngineAction::Accept { handler: None, .. }
    ));
    let e = &mut c.entries[0];
    assert_eq!(e.handler, None);
    assert_eq!(e.on_io(IoEvent::Ready(true)), TaskAction::Progress);
    assert_eq!(c.prune(), 1);
    assert!(c.entries.is_empty());
}

#[test]
fn gzip_body_goes_to_decoding_sink() {
    let mut c = serving(&["/"]);
    match c.on_engine(stream("/up", Some("gzip"))) {
        EngineAction::Accept { handler, sink } => {
            assert_eq!(handler, Some(0));
            assert_eq!(sink, SinkKind::Decoding(ContentEncoding::Gzip));
        }
        _ => panic!("stream not accepted"),
    }
    let e = &mut c.entries[0];
    assert_eq!(e.sink, SinkKind::Decoding(ContentEncoding::Gzip));
    match e.on_body(BodyEvent::Chunk(Bytes::from(vec![0x1f, 0x8b, 8]))) {
        BodyAction::Feed(c) => assert_eq!(&c[..], &[0x1f, 0x8b, 8]),
        _ => panic!("chunk not fed"),
    }
}

#[test]
fn empty_prefix_defers_to_transport() {
    let mut p = PrefixBuffer::new(Bytes::new());
    let mut buf = [7u8; 4];
    assert_eq!(p.read(&mut buf), None);
    assert_eq!(buf, [7u8; 4]);
    assert!(p.unread.is_none());
}

#[test]
fn capacity_checked_after_body_ends() {
    let mut e = Entry::new(Some(0), SinkKind::Passthrough);
    assert!(matches!(e.on_body(BodyEvent::End), BodyAction::Stop));
    assert!(!e.body_open());
    assert_eq!(e.on_capacity(32), Some(32));
    assert_eq!(e.capacity, 32);
}

#[test]
fn grants_over_growing_capacity_sum_to_last() {
    let mut e = Entry::new(None, SinkKind::Passthrough);
    let caps = [10usize, 10, 25, 64, 64, 100];
    let total: usize = caps.iter().filter_map(|c| e.on_capacity(*c)).sum();
    assert_eq!(total, 100);
    assert_eq!(e.capacity, 100);
}
