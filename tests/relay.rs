use stream_relay::cell::StreamCell;
use stream_relay::flv::{chunk_lacks_signature, flv_header_bytes, repair_first_chunk};
use stream_relay::http::{bytes_contain, is_live_request_bytes, not_found_bytes, stream_header_bytes, unavailable_bytes};
use stream_relay::session::{Ending, Phase, RelaySession, SessionAction, SessionEvent, RATE_REPORT_BYTES};

const FLV_HEADER: [u8; 13] = [0x46, 0x4c, 0x56, 0x01, 0x05, 0x00, 0x00, 0x00, 0x09, 0x00, 0x00, 0x00, 0x00];
const LIVE_REQUEST: &[u8] = b"GET /live.flv HTTP/1.1\r\nHost: 127.0.0.1:7433\r\n\r\n";

fn cell_with(url: &str) -> StreamCell {
    let mut cell = StreamCell::new();
    cell.set_stream(url.to_string());
    cell
}

fn write_bytes(a: SessionAction) -> (Vec<u8>, bool) {
    match a {
        SessionAction::Write(b, report) => (b, report),
        _ => panic!("expected a write"),
    }
}

/// A session that has accepted its request for `url` and written its header.
fn streaming_session(url: &str) -> RelaySession {
    let cell = cell_with(url);
    let mut s = RelaySession::new();
    match s.on_request(LIVE_REQUEST, &cell) {
        SessionAction::Fetch(u) => assert_eq!(u, url),
        _ => panic!("expected a fetch"),
    }
    let (header, _) = write_bytes(s.step(SessionEvent::Connected));
    assert_eq!(header, stream_header_bytes());
    s
}

#[test]
fn scenario_configured_stream_is_relayed() {
    let cell = cell_with("http://example.test/a.flv");
    let mut s = RelaySession::new();
    match s.on_request(LIVE_REQUEST, &cell) {
        SessionAction::Fetch(u) => assert_eq!(u, "http://example.test/a.flv"),
        _ => panic!("expected a fetch"),
    }
    assert_eq!(s.phase(), Phase::FetchingUpstream);
    let (header, report) = write_bytes(s.step(SessionEvent::Connected));
    assert!(!report);
    let text = String::from_utf8(header).unwrap();
    assert!(text.starts_with("HTTP/1.1 200 OK\r\n"));
    assert!(text.contains("Content-Type: video/x-flv\r\n"));
    assert!(text.contains("Access-Control-Allow-Origin: *\r\n"));
    assert!(text.contains("Cache-Control: no-cache\r\n"));
    assert!(text.ends_with("\r\n\r\n"));
    let first = b"FLV\x01\x05\x00\x00\x00\x09rest".to_vec();
    let (out, _) = write_bytes(s.step(SessionEvent::Chunk(first.clone())));
    assert_eq!(out, first);
    assert!(!s.injected_header());
    assert_eq!(s.phase(), Phase::Streaming);
}

#[test]
fn scenario_unsigned_upstream_gets_header() {
    let mut s = streaming_session("http://example.test/a.flv");
    let first = vec![9u8, 0, 0, 0, 1, 2, 3];
    let (out, _) = write_bytes(s.step(SessionEvent::Chunk(first.clone())));
    let mut expected = FLV_HEADER.to_vec();
    expected.extend_from_slice(&first);
    assert_eq!(out, expected);
    assert!(s.injected_header());
}

#[test]
fn scenario_unconfigured_answers_503() {
    let cell = StreamCell::new();
    assert!(!cell.is_set());
    let mut s = RelaySession::new();
    match s.on_request(LIVE_REQUEST, &cell) {
        SessionAction::Reply(b) => {
            assert_eq!(b, b"HTTP/1.1 503 Service Unavailable\r\n\r\nNo stream URL set".to_vec());
            assert_eq!(b, unavailable_bytes());
        }
        _ => panic!("expected a 503 reply"),
    }
    assert_eq!(s.phase(), Phase::Closed);
    assert!(s.url().is_none());
    // Nothing is streamed afterwards.
    assert!(matches!(s.step(SessionEvent::Connected), SessionAction::Close(Ending::OutOfOrder)));
    assert!(matches!(s.step(SessionEvent::Chunk(vec![1, 2, 3])), SessionAction::Close(Ending::OutOfOrder)));
}

#[test]
fn scenario_other_path_answers_404() {
    let cell = cell_with("http://example.test/a.flv");
    let mut s = RelaySession::new();
    match s.on_request(b"GET /other HTTP/1.1\r\n\r\n", &cell) {
        SessionAction::Reply(b) => {
            assert_eq!(b, b"HTTP/1.1 404 Not Found\r\n\r\n".to_vec());
            assert_eq!(b, not_found_bytes());
        }
        _ => panic!("expected a 404 reply"),
    }
    assert_eq!(s.phase(), Phase::Closed);
    assert!(s.url().is_none());
}

#[test]
fn wrong_path_without_stream_still_404() {
    let cell = StreamCell::new();
    let mut s = RelaySession::new();
    assert!(matches!(s.on_request(b"POST /live.flv HTTP/1.1\r\n\r\n", &cell), SessionAction::Reply(b) if b == not_found_bytes()));
    let mut s = RelaySession::new();
    assert!(matches!(s.on_request(b"", &cell), SessionAction::Reply(b) if b == not_found_bytes()));
}

#[test]
fn request_read_failure_answers_404() {
    let mut s = RelaySession::new();
    assert!(matches!(s.step(SessionEvent::RequestFailed), SessionAction::Reply(b) if b == not_found_bytes()));
    assert_eq!(s.phase(), Phase::Closed);
}

#[test]
fn scenario_upstream_closes_after_n_bytes() {
    let mut s = streaming_session("http://example.test/a.flv");
    let chunks: Vec<Vec<u8>> = vec![b"FLV\x01\x05".to_vec(), vec![7u8; 100], vec![8u8; 23]];
    let mut upstream = Vec::new();
    let mut client = Vec::new();
    for c in &chunks {
        upstream.extend_from_slice(c);
        let (out, _) = write_bytes(s.step(SessionEvent::Chunk(c.clone())));
        client.extend_from_slice(&out);
    }
    assert!(matches!(s.step(SessionEvent::UpstreamEnded), SessionAction::Close(Ending::UpstreamEnded)));
    assert_eq!(s.phase(), Phase::Closed);
    assert_eq!(client, upstream);
    assert_eq!(client.len(), 128);
    assert_eq!(s.total(), 128);
}

#[test]
fn order_kept_behind_synthesized_header() {
    let mut s = streaming_session("http://example.test/b.flv");
    let chunks: Vec<Vec<u8>> = vec![vec![1, 2, 3, 4], vec![5], vec![], vec![6, 7]];
    let mut client = Vec::new();
    for c in &chunks {
        let (out, _) = write_bytes(s.step(SessionEvent::Chunk(c.clone())));
        client.extend_from_slice(&out);
    }
    let mut expected = FLV_HEADER.to_vec();
    expected.extend_from_slice(&[1, 2, 3, 4, 5, 6, 7]);
    assert_eq!(client, expected);
    assert_eq!(s.total(), 7);
}

#[test]
fn short_first_chunk_passes_unchanged() {
    let mut s = streaming_session("http://example.test/c.flv");
    let (out, _) = write_bytes(s.step(SessionEvent::Chunk(vec![0x41, 0x42])));
    assert_eq!(out, vec![0x41, 0x42]);
    assert!(!s.injected_header());
    // Later chunks are never inspected for the signature.
    let (out, _) = write_bytes(s.step(SessionEvent::Chunk(vec![0, 0, 0, 0])));
    assert_eq!(out, vec![0, 0, 0, 0]);
}

#[test]
fn snapshot_is_kept_by_running_session() {
    let mut cell = cell_with("http://example.test/a.flv");
    let mut first = RelaySession::new();
    assert!(matches!(first.on_request(LIVE_REQUEST, &cell), SessionAction::Fetch(u) if u == "http://example.test/a.flv"));
    cell.set_stream("http://example.test/b.flv".to_string());
    assert!(matches!(first.step(SessionEvent::Connected), SessionAction::Write(_, false)));
    assert!(matches!(first.step(SessionEvent::Chunk(vec![1, 2, 3])), SessionAction::Write(_, false)));
    assert_eq!(first.url().unwrap(), "http://example.test/a.flv");
    let mut second = RelaySession::new();
    assert!(matches!(second.on_request(LIVE_REQUEST, &cell), SessionAction::Fetch(u) if u == "http://example.test/b.flv"));
    assert_eq!(cell.snapshot().unwrap(), "http://example.test/b.flv");
}

#[test]
fn failure_in_one_session_leaves_another_running() {
    let mut a = streaming_session("http://example.test/a.flv");
    let mut b = streaming_session("http://example.test/a.flv");
    assert!(matches!(a.step(SessionEvent::Chunk(vec![1, 2, 3])), SessionAction::Write(_, _)));
    assert!(matches!(b.step(SessionEvent::Chunk(vec![4, 5, 6])), SessionAction::Write(_, _)));
    assert!(matches!(a.step(SessionEvent::ClientLeft), SessionAction::Close(Ending::ClientLeft)));
    assert_eq!(a.phase(), Phase::Closed);
    assert_eq!(b.phase(), Phase::Streaming);
    let (out, _) = write_bytes(b.step(SessionEvent::Chunk(vec![7, 8])));
    assert_eq!(out, vec![7, 8]);
    assert!(matches!(b.step(SessionEvent::UpstreamFailed), SessionAction::Close(Ending::UpstreamFailed)));
}

#[test]
fn each_ending_is_reported() {
    let mut s = RelaySession::new();
    let cell = cell_with("http://example.test/a.flv");
    s.on_request(LIVE_REQUEST, &cell);
    assert!(matches!(s.step(SessionEvent::ConnectFailed), SessionAction::Close(Ending::ConnectFailed)));
    let mut s = streaming_session("u");
    assert!(matches!(s.step(SessionEvent::ClientWriteFailed), SessionAction::Close(Ending::ClientWriteFailed)));
    let mut s = streaming_session("u");
    assert!(matches!(s.step(SessionEvent::UpstreamEnded), SessionAction::Close(Ending::UpstreamEnded)));
    let mut s = RelaySession::new();
    assert!(matches!(s.step(SessionEvent::Chunk(vec![1])), SessionAction::Close(Ending::OutOfOrder)));
    let mut s = streaming_session("u");
    assert!(matches!(s.on_request(LIVE_REQUEST, &cell), SessionAction::Close(Ending::OutOfOrder)));
}

#[test]
fn throughput_report_at_each_mebibyte() {
    let mut s = streaming_session("u");
    let (_, report) = write_bytes(s.step(SessionEvent::Chunk(vec![0x46, 0x4c, 0x56, 1])));
    assert!(!report);
    let rest = (RATE_REPORT_BYTES as usize) - 4;
    let (out, report) = write_bytes(s.step(SessionEvent::Chunk(vec![0u8; rest])));
    assert_eq!(out.len(), rest);
    assert!(report);
    assert_eq!(s.total(), 1048576);
    let (_, report) = write_bytes(s.step(SessionEvent::Chunk(vec![0u8; 10])));
    assert!(!report);
    // Crossing the next boundary without landing on it also reports.
    let (_, report) = write_bytes(s.step(SessionEvent::Chunk(vec![0u8; 1048570])));
    assert!(report);
    assert_eq!(s.total(), 2 * 1048576 + 4);
}

#[test]
fn large_first_chunk_reports() {
    let mut s = streaming_session("u");
    let (out, report) = write_bytes(s.step(SessionEvent::Chunk(vec![0u8; 1048576 + 1])));
    assert!(report);
    assert_eq!(out.len(), 13 + 1048577);
}

#[test]
fn signature_repair_of_single_chunks() {
    assert_eq!(flv_header_bytes(), FLV_HEADER.to_vec());
    assert_eq!(repair_first_chunk(b"FLVabc"), b"FLVabc".to_vec());
    assert_eq!(repair_first_chunk(b"FL"), b"FL".to_vec());
    assert_eq!(repair_first_chunk(b""), Vec::<u8>::new());
    let mut expected = FLV_HEADER.to_vec();
    expected.extend_from_slice(b"FLX");
    assert_eq!(repair_first_chunk(b"FLX"), expected);
    assert!(chunk_lacks_signature(b"flv"));
    assert!(!chunk_lacks_signature(b"FLV"));
    assert!(!chunk_lacks_signature(b"F"));
}

#[test]
fn live_request_recognised_anywhere() {
    assert!(is_live_request_bytes(b"GET /live.flv HTTP/1.1"));
    assert!(is_live_request_bytes(b"xxGET /live.flv?x=1"));
    assert!(!is_live_request_bytes(b"GET /live.fl"));
    assert!(!is_live_request_bytes(b"get /live.flv"));
    assert!(bytes_contain(b"abc", b""));
    assert!(bytes_contain(b"abc", b"abc"));
    assert!(!bytes_contain(b"ab", b"abc"));
    assert!(bytes_contain(b"aab", b"ab"));
}
