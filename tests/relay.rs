use shell_relay::relay::{
    Action, Endpoint, Event, PeerKind, RelayConfig, RelaySession, Snapshot, RELAY_LIMIT,
};
use shell_relay::shutdown::ShutdownReport;
use shell_relay::stream::{ReadOutcome, Readiness, WriteOutcome};

fn quiet() -> Readiness {
    Readiness { readable: false, writable: false, hangup: false }
}

fn readable() -> Readiness {
    Readiness { readable: true, writable: false, hangup: false }
}

fn writable() -> Readiness {
    Readiness { readable: false, writable: true, hangup: false }
}

fn hung_up() -> Readiness {
    Readiness { readable: false, writable: false, hangup: true }
}

fn snapshot(stdin: Readiness, stdout: Readiness, stderr: Readiness, peer: Readiness) -> Snapshot {
    Snapshot { stdin, stdout, stderr, peer }
}

fn session(peer: PeerKind) -> RelaySession {
    let mut s = RelaySession::new(RelayConfig { peer, flush_before_exit: false });
    assert!(matches!(s.step(Event::Done), Action::Poll(_)));
    s
}

/// Feeds bytes from the peer through one full iteration and returns the action that
/// follows the reads.
fn feed_peer(s: &mut RelaySession, bytes: &[u8]) -> Action {
    let a = s.step(Event::Ready(snapshot(quiet(), quiet(), quiet(), readable())));
    assert_eq!(a, Action::Read(Endpoint::Peer));
    let a = s.step(Event::Read(ReadOutcome::Data(bytes.to_vec())));
    assert_eq!(a, Action::Read(Endpoint::Peer));
    s.step(Event::Read(ReadOutcome::WouldBlock))
}

#[test]
fn shell_output_is_relayed_with_crlf() {
    let mut s = session(PeerKind::Socket);
    let a = s.step(Event::Ready(snapshot(quiet(), readable(), quiet(), quiet())));
    assert_eq!(a, Action::Read(Endpoint::ShellStdout));
    let a = s.step(Event::Read(ReadOutcome::Data(b"a\nb\n".to_vec())));
    assert_eq!(a, Action::Read(Endpoint::ShellStdout));
    let a = s.step(Event::Read(ReadOutcome::WouldBlock));
    match a {
        Action::Poll(i) => {
            assert!(i.peer.write);
            assert!(i.stdout.read);
            assert!(!i.stdin.write);
        }
        other => panic!("unexpected {:?}", other),
    }
    assert_eq!(s.outbound(Endpoint::Peer), b"a\r\nb\r\n");
    let a = s.step(Event::Ready(snapshot(quiet(), quiet(), quiet(), writable())));
    assert_eq!(a, Action::Write { to: Endpoint::Peer, len: 6 });
    let a = s.step(Event::Wrote(WriteOutcome::Wrote(4)));
    assert_eq!(a, Action::Write { to: Endpoint::Peer, len: 2 });
    assert_eq!(s.outbound(Endpoint::Peer), b"\r\n");
    let a = s.step(Event::Wrote(WriteOutcome::Wrote(2)));
    assert!(matches!(a, Action::Poll(i) if !i.peer.write));
}

#[test]
fn stderr_is_relayed_to_the_peer_too() {
    let mut s = session(PeerKind::Socket);
    let a = s.step(Event::Ready(snapshot(quiet(), quiet(), readable(), quiet())));
    assert_eq!(a, Action::Read(Endpoint::ShellStderr));
    s.step(Event::Read(ReadOutcome::Data(b"err\n".to_vec())));
    s.step(Event::Read(ReadOutcome::WouldBlock));
    assert_eq!(s.outbound(Endpoint::Peer), b"err\r\n");
}

#[test]
fn interrupt_byte_signals_and_is_not_written() {
    let mut s = session(PeerKind::Socket);
    let a = feed_peer(&mut s, &[3, b'x']);
    assert!(matches!(a, Action::Poll(i) if i.stdin.write));
    let a = s.step(Event::Ready(snapshot(writable(), quiet(), quiet(), quiet())));
    assert_eq!(a, Action::Interrupt);
    assert_eq!(s.outbound(Endpoint::ShellStdin), b"x");
    assert!(s.is_open(Endpoint::ShellStdin));
    assert!(matches!(s.step(Event::Done), Action::Poll(_)));
    let a = s.step(Event::Ready(snapshot(writable(), quiet(), quiet(), quiet())));
    assert_eq!(a, Action::Write { to: Endpoint::ShellStdin, len: 1 });
}

#[test]
fn end_of_input_byte_closes_shell_input() {
    let mut s = session(PeerKind::Socket);
    feed_peer(&mut s, &[4, b'l', b's', b'\n']);
    let a = s.step(Event::Ready(snapshot(writable(), quiet(), quiet(), quiet())));
    assert_eq!(a, Action::Close(Endpoint::ShellStdin));
    assert!(!s.is_open(Endpoint::ShellStdin));
    assert!(s.outbound(Endpoint::ShellStdin).is_empty());
    let a = s.step(Event::Done);
    assert!(matches!(a, Action::Poll(i) if !i.stdin.write));
    let a = feed_peer(&mut s, b"more\n");
    assert!(matches!(a, Action::Poll(i) if !i.stdin.write));
    assert!(s.outbound(Endpoint::ShellStdin).is_empty());
}

#[test]
fn control_byte_in_the_middle_waits_for_its_turn() {
    let mut s = session(PeerKind::Socket);
    feed_peer(&mut s, b"ab\x03c");
    let a = s.step(Event::Ready(snapshot(writable(), quiet(), quiet(), quiet())));
    assert_eq!(a, Action::Write { to: Endpoint::ShellStdin, len: 2 });
    let a = s.step(Event::Wrote(WriteOutcome::Wrote(2)));
    assert_eq!(a, Action::Interrupt);
    assert_eq!(s.outbound(Endpoint::ShellStdin), b"c");
}

#[test]
fn peer_end_of_stream_drops_pending_shell_input() {
    let mut s = session(PeerKind::Socket);
    let a = s.step(Event::Ready(snapshot(quiet(), quiet(), quiet(), readable())));
    assert_eq!(a, Action::Read(Endpoint::Peer));
    s.step(Event::Read(ReadOutcome::Data(b"ls\n".to_vec())));
    let a = s.step(Event::Read(ReadOutcome::EndOfStream));
    assert_eq!(a, Action::Close(Endpoint::ShellStdin));
    assert!(s.outbound(Endpoint::ShellStdin).is_empty());
    assert!(!s.is_open(Endpoint::ShellStdin));
    assert!(!s.is_open(Endpoint::Peer));
    assert_eq!(s.step(Event::Done), Action::Close(Endpoint::Peer));
    let a = s.step(Event::Done);
    assert!(matches!(a, Action::Poll(i) if !i.stdin.write && !i.peer.read && !i.peer.write));
    let a = s.step(Event::Ready(snapshot(writable(), quiet(), quiet(), quiet())));
    assert!(matches!(a, Action::Poll(_)));
}

#[test]
fn shell_exit_is_reaped_and_reported() {
    let mut s = session(PeerKind::Socket);
    let a = s.step(Event::Ready(snapshot(hung_up(), hung_up(), hung_up(), quiet())));
    assert_eq!(a, Action::Close(Endpoint::ShellStdin));
    assert_eq!(s.step(Event::Done), Action::Read(Endpoint::ShellStdout));
    assert_eq!(s.step(Event::Read(ReadOutcome::EndOfStream)), Action::Close(Endpoint::ShellStdout));
    assert_eq!(s.step(Event::Done), Action::Read(Endpoint::ShellStderr));
    assert_eq!(s.step(Event::Read(ReadOutcome::WouldBlock)), Action::Close(Endpoint::ShellStderr));
    assert!(!s.is_finished());
    assert_eq!(s.step(Event::Done), Action::Reap);
    assert!(s.is_finished());
    assert_eq!(s.step(Event::Done), Action::Reap);
    let report = ShutdownReport::from_wait(Some(0), None);
    assert_eq!(report.status, 0);
    assert_eq!(report.signal, 0);
    assert!(report.exited_normally());
}

#[test]
fn signal_termination_is_reported() {
    let report = ShutdownReport::from_wait(None, Some(2));
    assert_eq!(report.signal, 2);
    assert_eq!(report.status, 0);
    assert!(!report.exited_normally());
    let report = ShutdownReport::from_wait(Some(3), None);
    assert_eq!(report.status, 3);
}

#[test]
fn flush_before_exit_waits_for_the_peer() {
    let mut s = RelaySession::new(RelayConfig { peer: PeerKind::Socket, flush_before_exit: true });
    s.step(Event::Done);
    let a = s.step(Event::Ready(snapshot(hung_up(), readable(), hung_up(), quiet())));
    assert_eq!(a, Action::Close(Endpoint::ShellStdin));
    assert_eq!(s.step(Event::Done), Action::Read(Endpoint::ShellStdout));
    s.step(Event::Read(ReadOutcome::Data(b"bye\n".to_vec())));
    assert_eq!(s.step(Event::Read(ReadOutcome::EndOfStream)), Action::Close(Endpoint::ShellStdout));
    assert_eq!(s.step(Event::Done), Action::Read(Endpoint::ShellStderr));
    assert_eq!(s.step(Event::Read(ReadOutcome::EndOfStream)), Action::Close(Endpoint::ShellStderr));
    let a = s.step(Event::Done);
    assert!(matches!(a, Action::Poll(i) if i.peer.write));
    let a = s.step(Event::Ready(snapshot(quiet(), quiet(), quiet(), writable())));
    assert_eq!(a, Action::Write { to: Endpoint::Peer, len: 5 });
    let a = s.step(Event::Wrote(WriteOutcome::Wrote(5)));
    assert_eq!(a, Action::Reap);
}

#[test]
fn broken_pipe_on_peer_closes_peer_and_shell_input() {
    let mut s = session(PeerKind::Socket);
    s.step(Event::Ready(snapshot(quiet(), readable(), quiet(), quiet())));
    s.step(Event::Read(ReadOutcome::Data(b"x".to_vec())));
    s.step(Event::Read(ReadOutcome::WouldBlock));
    let a = s.step(Event::Ready(snapshot(quiet(), quiet(), quiet(), writable())));
    assert_eq!(a, Action::Write { to: Endpoint::Peer, len: 1 });
    let a = s.step(Event::Wrote(WriteOutcome::BrokenPipe));
    assert_eq!(a, Action::Close(Endpoint::ShellStdin));
    assert_eq!(s.step(Event::Done), Action::Close(Endpoint::Peer));
    assert!(s.outbound(Endpoint::Peer).is_empty());
}

#[test]
fn broken_pipe_on_shell_input_closes_it() {
    let mut s = session(PeerKind::Socket);
    feed_peer(&mut s, b"echo\n");
    let a = s.step(Event::Ready(snapshot(writable(), quiet(), quiet(), quiet())));
    assert_eq!(a, Action::Write { to: Endpoint::ShellStdin, len: 5 });
    let a = s.step(Event::Wrote(WriteOutcome::BrokenPipe));
    assert_eq!(a, Action::Close(Endpoint::ShellStdin));
    assert!(s.is_open(Endpoint::Peer));
}

#[test]
fn terminal_peer_echoes_and_translates() {
    let mut s = session(PeerKind::Terminal);
    feed_peer(&mut s, b"ls\r");
    assert_eq!(s.outbound(Endpoint::ShellStdin), b"ls\n");
    assert_eq!(s.outbound(Endpoint::Peer), b"ls\r\n");
}

#[test]
fn socket_peer_bytes_pass_unchanged() {
    let mut s = session(PeerKind::Socket);
    feed_peer(&mut s, b"a\rb\n");
    assert_eq!(s.outbound(Endpoint::ShellStdin), b"a\rb\n");
    assert!(s.outbound(Endpoint::Peer).is_empty());
}

#[test]
fn full_peer_buffer_stops_reading_shell_output() {
    let mut s = session(PeerKind::Socket);
    s.step(Event::Ready(snapshot(quiet(), readable(), quiet(), quiet())));
    s.step(Event::Read(ReadOutcome::Data(vec![b'z'; RELAY_LIMIT])));
    let a = s.step(Event::Read(ReadOutcome::WouldBlock));
    match a {
        Action::Poll(i) => {
            assert!(!i.stdout.read);
            assert!(!i.stderr.read);
            assert!(i.peer.write);
            assert!(i.peer.read);
        }
        other => panic!("unexpected {:?}", other),
    }
}

#[test]
fn unanswered_event_is_ignored() {
    let mut s = session(PeerKind::Socket);
    let a = s.step(Event::Wrote(WriteOutcome::Wrote(3)));
    assert!(matches!(a, Action::Poll(_)));
}
