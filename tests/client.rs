use shell_relay::client::{
    key_echo, ClientAction, ClientEndpoint, ClientEvent, ClientSession, ClientSnapshot,
};
use shell_relay::stream::{ReadOutcome, Readiness, WriteOutcome};

fn quiet() -> Readiness {
    Readiness { readable: false, writable: false, hangup: false }
}

fn readable() -> Readiness {
    Readiness { readable: true, writable: false, hangup: false }
}

fn started() -> ClientSession {
    let mut s = ClientSession::new();
    assert!(matches!(s.step(ClientEvent::Done), ClientAction::Poll(_)));
    s
}

#[test]
fn keyboard_input_is_echoed_and_forwarded() {
    let mut s = started();
    let a = s.step(ClientEvent::Ready(ClientSnapshot { keyboard: readable(), peer: quiet() }));
    assert_eq!(a, ClientAction::Read(ClientEndpoint::Keyboard));
    let a = s.step(ClientEvent::Read(ReadOutcome::Data(vec![0x6c, 0x73, 0x0d])));
    assert_eq!(a, ClientAction::Read(ClientEndpoint::Keyboard));
    let a = s.step(ClientEvent::Read(ReadOutcome::WouldBlock));
    assert_eq!(a, ClientAction::Write { to: ClientEndpoint::Screen, len: 4 });
    assert_eq!(s.outbound(ClientEndpoint::Screen), &[0x6c, 0x73, 0x0d, 0x0a]);
    assert_eq!(s.outbound(ClientEndpoint::Peer), &[0x6c, 0x73, 0x0a]);
    let a = s.step(ClientEvent::Wrote(WriteOutcome::Wrote(4)));
    assert!(matches!(a, ClientAction::Poll(i) if i.peer.write && !i.screen.write));
    let a = s.step(ClientEvent::Ready(ClientSnapshot { keyboard: quiet(), peer: quiet() }));
    assert_eq!(a, ClientAction::Write { to: ClientEndpoint::Peer, len: 3 });
    let a = s.step(ClientEvent::Wrote(WriteOutcome::Wrote(3)));
    assert!(matches!(a, ClientAction::Poll(i) if !i.peer.write));
}

#[test]
fn peer_bytes_reach_the_screen_unchanged() {
    let mut s = started();
    let a = s.step(ClientEvent::Ready(ClientSnapshot { keyboard: quiet(), peer: readable() }));
    assert_eq!(a, ClientAction::Read(ClientEndpoint::Peer));
    s.step(ClientEvent::Read(ReadOutcome::Data(b"a\r\nb\r\n".to_vec())));
    let a = s.step(ClientEvent::Read(ReadOutcome::WouldBlock));
    assert_eq!(a, ClientAction::Write { to: ClientEndpoint::Screen, len: 6 });
    assert_eq!(s.outbound(ClientEndpoint::Screen), b"a\r\nb\r\n");
}

#[test]
fn peer_end_of_stream_ends_after_the_screen_is_written() {
    let mut s = started();
    s.step(ClientEvent::Ready(ClientSnapshot { keyboard: quiet(), peer: readable() }));
    s.step(ClientEvent::Read(ReadOutcome::Data(b"bye".to_vec())));
    let a = s.step(ClientEvent::Read(ReadOutcome::EndOfStream));
    assert_eq!(a, ClientAction::Write { to: ClientEndpoint::Screen, len: 3 });
    let a = s.step(ClientEvent::Wrote(WriteOutcome::Wrote(3)));
    assert_eq!(a, ClientAction::Finish);
    assert!(s.is_finished());
}

#[test]
fn keyboard_end_of_stream_ends_the_session() {
    let mut s = started();
    s.step(ClientEvent::Ready(ClientSnapshot { keyboard: readable(), peer: quiet() }));
    let a = s.step(ClientEvent::Read(ReadOutcome::EndOfStream));
    assert_eq!(a, ClientAction::Finish);
}

#[test]
fn broken_peer_ends_the_session() {
    let mut s = started();
    s.step(ClientEvent::Ready(ClientSnapshot { keyboard: readable(), peer: quiet() }));
    s.step(ClientEvent::Read(ReadOutcome::Data(b"x".to_vec())));
    s.step(ClientEvent::Read(ReadOutcome::WouldBlock));
    s.step(ClientEvent::Wrote(WriteOutcome::Wrote(1)));
    let a = s.step(ClientEvent::Ready(ClientSnapshot { keyboard: quiet(), peer: quiet() }));
    assert_eq!(a, ClientAction::Write { to: ClientEndpoint::Peer, len: 1 });
    let a = s.step(ClientEvent::Wrote(WriteOutcome::BrokenPipe));
    assert_eq!(a, ClientAction::Finish);
}

#[test]
fn key_echo_follows_cr_to_crlf() {
    assert_eq!(key_echo(13), Some(vec![13, 10]));
    assert_eq!(key_echo(10), Some(vec![10]));
    assert_eq!(key_echo(b'q'), Some(vec![b'q']));
    assert_eq!(key_echo(3), Some(vec![3]));
    assert_eq!(key_echo(4), None);
}
