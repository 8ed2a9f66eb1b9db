use std::io;
use std::time::Duration;
use tinyudp::{Action, Error, Event, Exchange, Outcome, Phase, ReadOptions};

/// Drives an exchange through binding and sending, and returns the buffer it
/// hands out for the reply.
fn sent_exchange(options: ReadOptions) -> (Exchange, Vec<u8>, Duration) {
    let (mut exchange, first) = Exchange::new(Some(options));
    assert!(matches!(first, Action::Bind));
    assert!(matches!(exchange.step(Event::Bound), Action::Send));
    match exchange.step(Event::Sent) {
        Action::Receive { buffer, timeout } => (exchange, buffer, timeout),
        other => panic!("expected a receive, got {:?}", other),
    }
}

fn completed(action: Action) -> Result<Vec<u8>, Error> {
    match action {
        Action::Complete(result) => result,
        other => panic!("expected a result, got {:?}", other),
    }
}

#[test]
fn status_reply_within_window() {
    let options = ReadOptions::new(Duration::from_millis(200), 32 * 1024);
    let (mut exchange, mut buffer, timeout) = sent_exchange(options);
    assert_eq!(buffer.len(), 32768);
    assert_eq!(timeout, Duration::from_millis(200));
    let reply = b"\xff\xff\xff\xffn\\hostname\\QUAKE.SE KTX\\maxclients\\16\n";
    buffer[..reply.len()].copy_from_slice(reply);
    let action = exchange.step(Event::Arrived { buffer, len: reply.len() });
    let payload = completed(action).unwrap();
    assert_eq!(payload, reply.to_vec());
    assert!(String::from_utf8_lossy(&payload).contains("QUAKE.SE KTX"));
    assert_eq!(exchange.phase(), Phase::Finished(Outcome::Replied));
}

#[test]
fn short_timeout_reached() {
    let options = ReadOptions::new(Duration::from_millis(1), 32 * 1024);
    let (mut exchange, _buffer, timeout) = sent_exchange(options);
    assert_eq!(timeout, Duration::from_millis(1));
    let err = completed(exchange.step(Event::Elapsed)).unwrap_err();
    assert!(matches!(err, Error::TimeoutReached));
    assert_eq!(err.message(), "timeout reached while waiting for response");
    assert_eq!(exchange.phase(), Phase::Finished(Outcome::TimedOut));
}

#[test]
fn nothing_listening_reports_receive_failure() {
    let options = ReadOptions::new(Duration::from_millis(200), 1024);
    let (mut exchange, _buffer, _) = sent_exchange(options);
    let refused = io::Error::from(io::ErrorKind::ConnectionRefused);
    let err = completed(exchange.step(Event::ReceiveError(refused))).unwrap_err();
    match err {
        Error::ReceiveFailed(e) => assert_eq!(e.kind(), io::ErrorKind::ConnectionRefused),
        other => panic!("expected a receive failure, got {:?}", other),
    }
    assert_eq!(exchange.phase(), Phase::Finished(Outcome::ReceiveFailed));
}

#[test]
fn nothing_listening_may_time_out_instead() {
    let options = ReadOptions::new(Duration::from_millis(200), 1024);
    let (mut exchange, _buffer, _) = sent_exchange(options);
    let err = completed(exchange.step(Event::Elapsed)).unwrap_err();
    assert!(matches!(err, Error::TimeoutReached));
}

#[test]
fn late_datagram_after_timeout_is_not_returned() {
    let options = ReadOptions::new(Duration::from_millis(5), 16);
    let (mut exchange, buffer, _) = sent_exchange(options);
    assert!(completed(exchange.step(Event::Elapsed)).is_err());
    let late = exchange.step(Event::Arrived { buffer, len: 4 });
    assert!(matches!(late, Action::Wait));
    assert_eq!(exchange.phase(), Phase::Finished(Outcome::TimedOut));
}

#[test]
fn timeout_after_reply_changes_nothing() {
    let options = ReadOptions::new(Duration::from_millis(5), 16);
    let (mut exchange, buffer, _) = sent_exchange(options);
    assert!(completed(exchange.step(Event::Arrived { buffer, len: 3 })).is_ok());
    assert!(matches!(exchange.step(Event::Elapsed), Action::Wait));
    assert_eq!(exchange.phase(), Phase::Finished(Outcome::Replied));
}

#[test]
fn reply_filling_the_buffer_is_cut_at_its_size() {
    let options = ReadOptions::new(Duration::from_millis(50), 4);
    let (mut exchange, mut buffer, _) = sent_exchange(options);
    assert_eq!(buffer.len(), 4);
    // A datagram of six bytes, of which the transport kept what fits.
    let datagram = b"abcdef";
    buffer.copy_from_slice(&datagram[..4]);
    let payload = completed(exchange.step(Event::Arrived { buffer, len: 4 })).unwrap();
    assert_eq!(payload, b"abcd".to_vec());
}

#[test]
fn reply_shorter_than_buffer_is_cut_at_its_length() {
    let options = ReadOptions::new(Duration::from_millis(50), 8);
    let (mut exchange, mut buffer, _) = sent_exchange(options);
    buffer[..2].copy_from_slice(b"ok");
    let payload = completed(exchange.step(Event::Arrived { buffer, len: 2 })).unwrap();
    assert_eq!(payload, b"ok".to_vec());
}

#[test]
fn empty_reply() {
    let options = ReadOptions::new(Duration::from_millis(50), 8);
    let (mut exchange, buffer, _) = sent_exchange(options);
    let payload = completed(exchange.step(Event::Arrived { buffer, len: 0 })).unwrap();
    assert!(payload.is_empty());
}

#[test]
fn send_only_finishes_once_sent() {
    let (mut exchange, first) = Exchange::new(None);
    assert!(matches!(first, Action::Bind));
    assert_eq!(exchange.phase(), Phase::Unbound);
    assert!(matches!(exchange.step(Event::Bound), Action::Send));
    assert_eq!(exchange.phase(), Phase::Bound);
    let payload = completed(exchange.step(Event::Sent)).unwrap();
    assert!(payload.is_empty());
    assert_eq!(exchange.phase(), Phase::Finished(Outcome::Delivered));
}

#[test]
fn bind_failure_ends_the_exchange() {
    let options = ReadOptions::new(Duration::from_millis(50), 8);
    let (mut exchange, _) = Exchange::new(Some(options));
    let e = io::Error::from(io::ErrorKind::AddrNotAvailable);
    let err = completed(exchange.step(Event::BindError(e))).unwrap_err();
    assert!(matches!(err, Error::BindFailed(_)));
    assert!(err.message().starts_with("failed to bind socket: "));
    assert!(matches!(exchange.step(Event::Bound), Action::Wait));
    assert_eq!(exchange.phase(), Phase::Finished(Outcome::BindFailed));
}

#[test]
fn send_failure_skips_the_receive_step() {
    let options = ReadOptions::new(Duration::from_millis(50), 8);
    let (mut exchange, _) = Exchange::new(Some(options));
    assert!(matches!(exchange.step(Event::Bound), Action::Send));
    let e = io::Error::from(io::ErrorKind::PermissionDenied);
    let err = completed(exchange.step(Event::SendError(e))).unwrap_err();
    assert!(matches!(err, Error::SendFailed(_)));
    assert!(matches!(exchange.step(Event::Sent), Action::Wait));
    assert!(matches!(exchange.step(Event::Elapsed), Action::Wait));
    assert_eq!(exchange.phase(), Phase::Finished(Outcome::SendFailed));
}

#[test]
fn events_out_of_phase_are_ignored() {
    let options = ReadOptions::new(Duration::from_millis(50), 8);
    let (mut exchange, _) = Exchange::new(Some(options));
    assert!(matches!(exchange.step(Event::Sent), Action::Wait));
    assert!(matches!(exchange.step(Event::Elapsed), Action::Wait));
    assert_eq!(exchange.phase(), Phase::Unbound);
    assert!(matches!(exchange.step(Event::Bound), Action::Send));
    assert!(matches!(exchange.step(Event::Bound), Action::Wait));
    assert!(matches!(
        exchange.step(Event::Arrived { buffer: vec![1, 2], len: 2 }),
        Action::Wait
    ));
    assert_eq!(exchange.phase(), Phase::Bound);
}
