//! The shell-facing relay loop, as a state machine.
//!
//! A session connects a shell's three standard streams to one peer: a network
//! socket, or a terminal. The caller runs the loop: it hands each event to
//! [`RelaySession::step`] and performs the action that comes back (a readiness
//! wait, one read, one write, a signal, a close, or reaping the shell).
//!
//! One iteration goes: wait for readiness; notice a shell input that can no
//! longer be written; write the shell's input (intercepting control bytes at its
//! front); write the peer's output; read the shell's stdout, then its stderr,
//! then the peer; and finish once the shell's three streams are closed.
use vstd::prelude::*;
use crate::buffer::WriterBuffer;
use crate::stream::{quiet, Interest, ReadOutcome, Readiness, WriteOutcome};
use crate::translate::{translated, LineEndingTranslation};

verus! {

/// Control byte that asks for the shell to be interrupted.
pub const INTERRUPT: u8 = 3;

/// Control byte that asks for the shell's input to be closed.
pub const END_OF_INPUT: u8 = 4;

/// Above this many pending bytes, the loop stops reading the sources that feed a
/// buffer until it drains.
pub const RELAY_LIMIT: usize = 1048576;

/// One of the four streams of a session.
#[derive(Debug, Clone, Copy, PartialEq, Eq, Structural)]
pub enum Endpoint {
    ShellStdin,
    ShellStdout,
    ShellStderr,
    Peer,
}

/// What stands on the other side of the shell.
#[derive(Debug, Clone, Copy, PartialEq, Eq, Structural)]
pub enum PeerKind {
    /// A network peer, which sends bytes ready for the shell and shows what it gets
    /// as it is.
    Socket,
    /// A keyboard and a screen: keyboard bytes have carriage returns turned into line
    /// feeds for the shell, and are echoed to the screen.
    Terminal,
}

/// How a session behaves.
#[derive(Debug, Clone, Copy, PartialEq, Eq, Structural)]
pub struct RelayConfig {
    pub peer: PeerKind,
    /// Whether, once the shell's streams are closed, the session goes on until the
    /// peer has taken every pending byte (or is gone).
    pub flush_before_exit: bool,
}

/// One flag per endpoint.
#[derive(Debug, Clone, Copy, PartialEq, Eq, Structural)]
pub struct Links {
    pub stdin: bool,
    pub stdout: bool,
    pub stderr: bool,
    pub peer: bool,
}

/// What a readiness wait reported, per endpoint.
#[derive(Debug, Clone, Copy, PartialEq, Eq, Structural)]
pub struct Snapshot {
    pub stdin: Readiness,
    pub stdout: Readiness,
    pub stderr: Readiness,
    pub peer: Readiness,
}

/// What a readiness wait should watch for, per endpoint.
#[derive(Debug, Clone, Copy, PartialEq, Eq, Structural)]
pub struct Interests {
    pub stdin: Interest,
    pub stdout: Interest,
    pub stderr: Interest,
    pub peer: Interest,
}

/// Where a session is within one iteration of its loop.
#[derive(Debug, Clone, Copy, PartialEq, Eq, Structural)]
pub enum Stage {
    Poll,
    Probe,
    ShellInput,
    PeerOutput,
    ShellStdout,
    ShellStderr,
    PeerInput,
    Check,
    Reaped,
}

/// The event that a session waits for.
#[derive(Debug, Clone, Copy, PartialEq, Eq, Structural)]
pub enum Pending {
    Nothing,
    Readiness,
    /// The outcome of writing the first so many pending bytes of an endpoint.
    Write(Endpoint, usize),
    Read(Endpoint),
}

/// What the caller did, answering the last action.
pub enum Event {
    /// The answer to an action that produces nothing (and to the start).
    Done,
    Ready(Snapshot),
    Wrote(WriteOutcome),
    Read(ReadOutcome),
}

/// What the caller is to do next.
#[derive(Debug, Clone, Copy, PartialEq, Eq, Structural)]
pub enum Action {
    /// Wait until one of the interests is met, then answer with `Event::Ready`.
    Poll(Interests),
    /// Write the first `len` bytes of `outbound(to)` to `to`, then answer with
    /// `Event::Wrote`.
    Write { to: Endpoint, len: usize },
    /// Read a chunk from the endpoint, then answer with `Event::Read`.
    Read(Endpoint),
    /// Send an interrupt signal to the shell, then answer with `Event::Done`.
    Interrupt,
    /// Release the endpoint's descriptor, then answer with `Event::Done`.
    Close(Endpoint),
    /// Wait for the shell to exit and report how it ended; the session is over.
    Reap,
}

/// The abstract state of a session.
pub struct RelayView {
    pub config: RelayConfig,
    /// The endpoints still in use in their direction of the relay.
    pub open: Links,
    /// The endpoints whose descriptor the caller still holds.
    pub held: Links,
    pub stage: Stage,
    pub pending: Pending,
    /// The readiness report of the current iteration.
    pub snapshot: Snapshot,
    /// Bytes waiting for the shell's input.
    pub to_shell: Seq<u8>,
    /// Bytes waiting for the peer.
    pub to_peer: Seq<u8>,
}

pub open spec fn is_control(b: u8) -> bool {
    b == INTERRUPT || b == END_OF_INPUT
}

/// The length of the longest prefix of `s` without a control byte.
pub open spec fn plain_prefix_len(s: Seq<u8>) -> nat
    decreases s.len(),
{
    if s.len() == 0 || is_control(s[0]) {
        0
    } else {
        1 + plain_prefix_len(s.drop_first())
    }
}

/// The policy applied to bytes from the peer on their way to the shell.
pub open spec fn inbound_translation(k: PeerKind) -> LineEndingTranslation {
    match k {
        PeerKind::Socket => LineEndingTranslation::Identity,
        PeerKind::Terminal => LineEndingTranslation::CRtoLF,
    }
}

/// Whether bytes from the peer are also echoed back to it.
pub open spec fn echoes(k: PeerKind) -> bool {
    k == PeerKind::Terminal
}

pub open spec fn all_links(b: bool) -> Links {
    Links { stdin: b, stdout: b, stderr: b, peer: b }
}

/// A fresh session: every endpoint open, nothing pending.
pub open spec fn initial(config: RelayConfig) -> RelayView {
    RelayView {
        config,
        open: all_links(true),
        held: all_links(true),
        stage: Stage::Poll,
        pending: Pending::Nothing,
        snapshot: Snapshot { stdin: quiet(), stdout: quiet(), stderr: quiet(), peer: quiet() },
        to_shell: Seq::empty(),
        to_peer: Seq::empty(),
    }
}

/// The state that every step keeps.
pub open spec fn relay_wf(v: RelayView) -> bool {
    &&& v.open.stdin ==> v.held.stdin
    &&& v.open.stdout ==> v.held.stdout
    &&& v.open.stderr ==> v.held.stderr
    &&& v.open.peer ==> v.held.peer
    &&& !v.open.stdin ==> v.to_shell.len() == 0
    &&& !v.open.peer ==> v.to_peer.len() == 0
    &&& v.pending matches Pending::Write(ep, k) ==> {
        ||| ep == Endpoint::ShellStdin && 0 < k <= plain_prefix_len(v.to_shell)
        ||| ep == Endpoint::Peer && 0 < k <= v.to_peer.len()
    }
    &&& v.pending matches Pending::Read(ep) ==> ep != Endpoint::ShellStdin
    &&& v.to_shell.len() <= usize::MAX
    &&& v.to_peer.len() <= usize::MAX
}

/// The shell's input closes; what was waiting for it is dropped.
pub open spec fn close_stdin(v: RelayView) -> RelayView {
    RelayView { open: Links { stdin: false, ..v.open }, to_shell: Seq::empty(), ..v }
}

pub open spec fn close_stdout(v: RelayView) -> RelayView {
    RelayView { open: Links { stdout: false, ..v.open }, ..v }
}

pub open spec fn close_stderr(v: RelayView) -> RelayView {
    RelayView { open: Links { stderr: false, ..v.open }, ..v }
}

/// The peer is gone in both directions; the shell's input closes with it, and what
/// was waiting for either is dropped.
pub open spec fn close_peer(v: RelayView) -> RelayView {
    let w = close_stdin(v);
    RelayView { open: Links { peer: false, ..w.open }, to_peer: Seq::empty(), ..w }
}

/// The peer is not read while the buffers its bytes feed are over the limit.
pub open spec fn peer_input_throttled(v: RelayView) -> bool {
    ||| v.open.stdin && v.to_shell.len() >= RELAY_LIMIT
    ||| echoes(v.config.peer) && v.to_peer.len() >= RELAY_LIMIT
}

/// The shell's output is not read while the buffer for the peer is over the limit.
pub open spec fn shell_output_throttled(v: RelayView) -> bool {
    v.open.peer && v.to_peer.len() >= RELAY_LIMIT
}

/// What the readiness wait watches: reading on every open source that is not
/// throttled, writing only where bytes wait.
pub open spec fn interests(v: RelayView) -> Interests {
    Interests {
        stdin: Interest { read: false, write: v.open.stdin && v.to_shell.len() > 0 },
        stdout: Interest { read: v.open.stdout && !shell_output_throttled(v), write: false },
        stderr: Interest { read: v.open.stderr && !shell_output_throttled(v), write: false },
        peer: Interest {
            read: v.open.peer && !peer_input_throttled(v),
            write: v.open.peer && v.to_peer.len() > 0,
        },
    }
}

/// The session is over once the shell's three streams are closed (and, if asked for,
/// the peer has taken everything or is gone).
pub open spec fn finished(v: RelayView) -> bool {
    &&& !v.open.stdin
    &&& !v.open.stdout
    &&& !v.open.stderr
    &&& (!v.config.flush_before_exit || !v.open.peer || v.to_peer.len() == 0)
}

/// Bytes from the peer: to the shell if its input is open, and echoed to the peer if
/// it is a terminal.
pub open spec fn take_inbound(v: RelayView, b: Seq<u8>) -> RelayView {
    RelayView {
        to_shell: if v.open.stdin {
            v.to_shell + translated(b, inbound_translation(v.config.peer))
        } else {
            v.to_shell
        },
        to_peer: if echoes(v.config.peer) && v.open.peer {
            v.to_peer + translated(b, LineEndingTranslation::CRtoCRLF)
        } else {
            v.to_peer
        },
        ..v
    }
}

/// Bytes from the shell's stdout or stderr: to the peer, with line feeds turned into
/// CR LF, if the peer is still there.
pub open spec fn take_outbound(v: RelayView, b: Seq<u8>) -> RelayView {
    RelayView {
        to_peer: if v.open.peer {
            v.to_peer + translated(b, LineEndingTranslation::LFtoCRLF)
        } else {
            v.to_peer
        },
        ..v
    }
}

/// The effect of the outcome of writing at most `k` leading bytes to `ep`. A write
/// that took bytes is followed by another; one that took none, or would block, ends
/// the stage; a broken pipe closes the endpoint.
pub open spec fn after_write(v: RelayView, ep: Endpoint, k: usize, o: WriteOutcome) -> RelayView {
    let next = if ep == Endpoint::ShellStdin {
        Stage::PeerOutput
    } else {
        Stage::ShellStdout
    };
    match o {
        WriteOutcome::Wrote(n) => if n == 0 {
            RelayView { stage: next, ..v }
        } else {
            let m: int = if n < k { n as int } else { k as int };
            if ep == Endpoint::ShellStdin {
                RelayView { to_shell: v.to_shell.subrange(m, v.to_shell.len() as int), ..v }
            } else {
                RelayView { to_peer: v.to_peer.subrange(m, v.to_peer.len() as int), ..v }
            }
        },
        WriteOutcome::BrokenPipe => if ep == Endpoint::ShellStdin {
            RelayView { stage: next, ..close_stdin(v) }
        } else {
            RelayView { stage: next, ..close_peer(v) }
        },
        WriteOutcome::WouldBlock => RelayView { stage: next, ..v },
    }
}

/// The stage that follows the reads of a source.
pub open spec fn stage_after(ep: Endpoint) -> Stage {
    if ep == Endpoint::ShellStdout {
        Stage::ShellStderr
    } else if ep == Endpoint::ShellStderr {
        Stage::PeerInput
    } else {
        Stage::Check
    }
}

/// Whether the readiness wait saw a source hang up.
pub open spec fn hung_up(v: RelayView, ep: Endpoint) -> bool {
    if ep == Endpoint::ShellStdout {
        v.snapshot.stdout.hangup
    } else if ep == Endpoint::ShellStderr {
        v.snapshot.stderr.hangup
    } else {
        v.snapshot.peer.hangup
    }
}

/// A source is done: it closes and the loop moves to the next stage.
pub open spec fn source_done(v: RelayView, ep: Endpoint) -> RelayView {
    let c = if ep == Endpoint::ShellStdout {
        close_stdout(v)
    } else if ep == Endpoint::ShellStderr {
        close_stderr(v)
    } else {
        close_peer(v)
    };
    RelayView { stage: stage_after(ep), ..c }
}

/// The effect of the outcome of a read on a source. Bytes are queued and the source
/// is read again; end of stream closes it; a would-block ends the stage, and closes
/// the source if the readiness wait saw it hang up.
pub open spec fn after_read(v: RelayView, ep: Endpoint, o: ReadOutcome) -> RelayView {
    match o {
        ReadOutcome::Data(b) => if b@.len() == 0 {
            source_done(v, ep)
        } else if ep == Endpoint::Peer {
            take_inbound(v, b@)
        } else {
            take_outbound(v, b@)
        },
        ReadOutcome::EndOfStream => source_done(v, ep),
        ReadOutcome::WouldBlock => if hung_up(v, ep) {
            source_done(v, ep)
        } else {
            RelayView { stage: stage_after(ep), ..v }
        },
    }
}

/// How an event changes the state: it counts only if it answers the action that the
/// session waits on.
pub open spec fn absorb(v: RelayView, ev: Event) -> RelayView {
    let w = RelayView { pending: Pending::Nothing, ..v };
    match v.pending {
        Pending::Readiness => match ev {
            Event::Ready(s) => RelayView { snapshot: s, stage: Stage::Probe, ..w },
            _ => w,
        },
        Pending::Write(ep, k) => match ev {
            Event::Wrote(o) => after_write(w, ep, k, o),
            _ => w,
        },
        Pending::Read(ep) => match ev {
            Event::Read(o) => after_read(w, ep, o),
            _ => w,
        },
        Pending::Nothing => w,
    }
}

proof fn lemma_absorb_wf(v: RelayView, ev: Event)
    requires
        relay_wf(v),
        absorb(v, ev).to_shell.len() <= usize::MAX,
        absorb(v, ev).to_peer.len() <= usize::MAX,
    ensures
        relay_wf(absorb(v, ev)),
        absorb(v, ev).pending == Pending::Nothing,
{
    let w = RelayView { pending: Pending::Nothing, ..v };
    assert(relay_wf(w));
    match v.pending {
        Pending::Write(ep, k) => match ev {
            Event::Wrote(o) => {
                lemma_plain_prefix(v.to_shell);
                lemma_after_write_wf(w, ep, k, o);
            },
            _ => {},
        },
        Pending::Read(ep) => match ev {
            Event::Read(o) => lemma_after_read_wf(w, ep, o),
            _ => {},
        },
        _ => {},
    }
}

proof fn lemma_after_write_wf(w: RelayView, ep: Endpoint, k: usize, o: WriteOutcome)
    requires
        relay_wf(w),
        after_write(w, ep, k, o).to_shell.len() <= usize::MAX,
        after_write(w, ep, k, o).to_peer.len() <= usize::MAX,
        w.pending == Pending::Nothing,
        ep == Endpoint::ShellStdin ==> k <= w.to_shell.len(),
        ep != Endpoint::ShellStdin ==> k <= w.to_peer.len(),
    ensures
        relay_wf(after_write(w, ep, k, o)),
{
}

proof fn lemma_after_read_wf(w: RelayView, ep: Endpoint, o: ReadOutcome)
    requires
        relay_wf(w),
        after_read(w, ep, o).to_shell.len() <= usize::MAX,
        after_read(w, ep, o).to_peer.len() <= usize::MAX,
        w.pending == Pending::Nothing,
    ensures
        relay_wf(after_read(w, ep, o)),
{
    match o {
        ReadOutcome::Data(b) => {
            if b@.len() == 0 {
                assert(relay_wf(source_done(w, ep)));
            } else if ep == Endpoint::Peer {
                let t = take_inbound(w, b@);
                assert(t.open == w.open && t.held == w.held && t.pending == w.pending);
                assert(!t.open.stdin ==> t.to_shell == w.to_shell);
                assert(!t.open.peer ==> t.to_peer == w.to_peer);
            } else {
                let t = take_outbound(w, b@);
                assert(!t.open.peer ==> t.to_peer == w.to_peer);
            }
        },
        ReadOutcome::EndOfStream => assert(relay_wf(source_done(w, ep))),
        ReadOutcome::WouldBlock => assert(relay_wf(source_done(w, ep))),
    }
}

proof fn lemma_decide_wf(v: RelayView)
    requires
        relay_wf(v),
        v.pending == Pending::Nothing,
    ensures
        relay_wf(decide(v).0),
{
    lemma_plain_prefix(v.to_shell);
    if !(v.held.stdin && !v.open.stdin) && !(v.held.stdout && !v.open.stdout) && !(v.held.stderr
        && !v.open.stderr) && !(v.held.peer && !v.open.peer) {
        match v.stage {
            Stage::Probe => {
                if !(v.open.stdin && v.snapshot.stdin.hangup) {
                    lemma_shell_input_wf(RelayView { stage: Stage::ShellInput, ..v });
                }
                assert(relay_wf(decide_probe(v).0));
            },
            Stage::ShellInput => lemma_shell_input_wf(v),
            _ => {},
        }
        assert(relay_wf(decide(v).0));
    }
}

proof fn lemma_shell_input_wf(v: RelayView)
    requires
        relay_wf(v),
        v.pending == Pending::Nothing,
    ensures
        relay_wf(decide_shell_input(v).0),
{
    lemma_plain_prefix(v.to_shell);
    if v.open.stdin && v.to_shell.len() > 0 {
        if v.to_shell[0] == INTERRUPT {
            let t = v.to_shell.drop_first();
            lemma_plain_prefix(t);
        }
    }
}

/// The wait that starts an iteration.
pub open spec fn poll_now(v: RelayView) -> (RelayView, Action) {
    (RelayView { stage: Stage::Poll, pending: Pending::Readiness, ..v }, Action::Poll(interests(v)))
}

/// Last stage: reap the shell once the session is over, else wait again.
pub open spec fn decide_check(v: RelayView) -> (RelayView, Action) {
    if finished(v) {
        (RelayView { stage: Stage::Reaped, ..v }, Action::Reap)
    } else {
        poll_now(v)
    }
}

/// Reads the peer if the wait saw it readable or hung up.
pub open spec fn decide_peer_input(v: RelayView) -> (RelayView, Action) {
    if v.open.peer && (v.snapshot.peer.readable || v.snapshot.peer.hangup) {
        (RelayView { pending: Pending::Read(Endpoint::Peer), ..v }, Action::Read(Endpoint::Peer))
    } else {
        decide_check(RelayView { stage: Stage::Check, ..v })
    }
}

/// Reads the shell's stderr if the wait saw it readable or hung up.
pub open spec fn decide_stderr(v: RelayView) -> (RelayView, Action) {
    if v.open.stderr && (v.snapshot.stderr.readable || v.snapshot.stderr.hangup) {
        (
            RelayView { pending: Pending::Read(Endpoint::ShellStderr), ..v },
            Action::Read(Endpoint::ShellStderr),
        )
    } else {
        decide_peer_input(RelayView { stage: Stage::PeerInput, ..v })
    }
}

/// Reads the shell's stdout if the wait saw it readable or hung up.
pub open spec fn decide_stdout(v: RelayView) -> (RelayView, Action) {
    if v.open.stdout && (v.snapshot.stdout.readable || v.snapshot.stdout.hangup) {
        (
            RelayView { pending: Pending::Read(Endpoint::ShellStdout), ..v },
            Action::Read(Endpoint::ShellStdout),
        )
    } else {
        decide_stderr(RelayView { stage: Stage::ShellStderr, ..v })
    }
}

/// Writes what waits for the peer.
pub open spec fn decide_peer_output(v: RelayView) -> (RelayView, Action) {
    if v.open.peer && v.to_peer.len() > 0 {
        let k = v.to_peer.len() as usize;
        (
            RelayView { pending: Pending::Write(Endpoint::Peer, k), ..v },
            Action::Write { to: Endpoint::Peer, len: k },
        )
    } else {
        decide_stdout(RelayView { stage: Stage::ShellStdout, ..v })
    }
}

/// Serves the shell's input. A control byte at the front is taken off and acted on
/// (an interrupt, or closing the input), and the iteration ends; otherwise the bytes
/// up to the next control byte are written.
pub open spec fn decide_shell_input(v: RelayView) -> (RelayView, Action) {
    if v.open.stdin && v.to_shell.len() > 0 {
        if v.to_shell[0] == INTERRUPT {
            (
                RelayView { to_shell: v.to_shell.drop_first(), stage: Stage::Poll, ..v },
                Action::Interrupt,
            )
        } else if v.to_shell[0] == END_OF_INPUT {
            let c = close_stdin(v);
            (
                RelayView { held: Links { stdin: false, ..c.held }, stage: Stage::Poll, ..c },
                Action::Close(Endpoint::ShellStdin),
            )
        } else {
            let k = plain_prefix_len(v.to_shell) as usize;
            (
                RelayView { pending: Pending::Write(Endpoint::ShellStdin, k), ..v },
                Action::Write { to: Endpoint::ShellStdin, len: k },
            )
        }
    } else {
        decide_peer_output(RelayView { stage: Stage::PeerOutput, ..v })
    }
}

/// Closes the shell's input if the wait saw that it can no longer be written.
pub open spec fn decide_probe(v: RelayView) -> (RelayView, Action) {
    if v.open.stdin && v.snapshot.stdin.hangup {
        let c = close_stdin(v);
        (
            RelayView { held: Links { stdin: false, ..c.held }, stage: Stage::ShellInput, ..c },
            Action::Close(Endpoint::ShellStdin),
        )
    } else {
        decide_shell_input(RelayView { stage: Stage::ShellInput, ..v })
    }
}

/// The next action: first release any endpoint that closed, then go on where the
/// iteration stands.
pub open spec fn decide(v: RelayView) -> (RelayView, Action) {
    if v.held.stdin && !v.open.stdin {
        (RelayView { held: Links { stdin: false, ..v.held }, ..v }, Action::Close(Endpoint::ShellStdin))
    } else if v.held.stdout && !v.open.stdout {
        (
            RelayView { held: Links { stdout: false, ..v.held }, ..v },
            Action::Close(Endpoint::ShellStdout),
        )
    } else if v.held.stderr && !v.open.stderr {
        (
            RelayView { held: Links { stderr: false, ..v.held }, ..v },
            Action::Close(Endpoint::ShellStderr),
        )
    } else if v.held.peer && !v.open.peer {
        (RelayView { held: Links { peer: false, ..v.held }, ..v }, Action::Close(Endpoint::Peer))
    } else {
        match v.stage {
            Stage::Poll => poll_now(v),
            Stage::Probe => decide_probe(v),
            Stage::ShellInput => decide_shell_input(v),
            Stage::PeerOutput => decide_peer_output(v),
            Stage::ShellStdout => decide_stdout(v),
            Stage::ShellStderr => decide_stderr(v),
            Stage::PeerInput => decide_peer_input(v),
            Stage::Check => decide_check(v),
            Stage::Reaped => (v, Action::Reap),
        }
    }
}

/// Whether the flag of an endpoint is set.
pub open spec fn link(l: Links, ep: Endpoint) -> bool {
    match ep {
        Endpoint::ShellStdin => l.stdin,
        Endpoint::ShellStdout => l.stdout,
        Endpoint::ShellStderr => l.stderr,
        Endpoint::Peer => l.peer,
    }
}

/// An endpoint, once closed, is never read, written or reopened: every read and
/// every write that a session asks for is on an open endpoint, and no event or
/// decision opens one again.
pub proof fn lemma_no_io_on_closed(v: RelayView, ev: Event, ep: Endpoint)
    requires
        relay_wf(v),
    ensures
        decide(v).1 matches Action::Read(from) ==> link(v.open, from),
        decide(v).1 matches Action::Write { to, .. } ==> link(v.open, to),
        link(absorb(v, ev).open, ep) ==> link(v.open, ep),
        link(decide(v).0.open, ep) ==> link(v.open, ep),
{
    lemma_decide_io_open(v, ep);
    lemma_absorb_never_opens(v, ev, ep);
}

proof fn lemma_decide_io_open(v: RelayView, ep: Endpoint)
    ensures
        decide(v).1 matches Action::Read(from) ==> link(v.open, from),
        decide(v).1 matches Action::Write { to, .. } ==> link(v.open, to),
        link(decide(v).0.open, ep) ==> link(v.open, ep),
{
    if !(v.held.stdin && !v.open.stdin) && !(v.held.stdout && !v.open.stdout) && !(v.held.stderr
        && !v.open.stderr) && !(v.held.peer && !v.open.peer) {
        match v.stage {
            Stage::Probe => {
                if !(v.open.stdin && v.snapshot.stdin.hangup) {
                    lemma_shell_input_io_open(RelayView { stage: Stage::ShellInput, ..v }, ep);
                }
            },
            Stage::ShellInput => lemma_shell_input_io_open(v, ep),
            Stage::PeerOutput => lemma_peer_output_io_open(v, ep),
            _ => {},
        }
    }
}

proof fn lemma_shell_input_io_open(v: RelayView, ep: Endpoint)
    ensures
        decide_shell_input(v).1 matches Action::Read(from) ==> link(v.open, from),
        decide_shell_input(v).1 matches Action::Write { to, .. } ==> link(v.open, to),
        link(decide_shell_input(v).0.open, ep) ==> link(v.open, ep),
{
    if !(v.open.stdin && v.to_shell.len() > 0) {
        lemma_peer_output_io_open(RelayView { stage: Stage::PeerOutput, ..v }, ep);
    }
}

proof fn lemma_peer_output_io_open(v: RelayView, ep: Endpoint)
    ensures
        decide_peer_output(v).1 matches Action::Read(from) ==> link(v.open, from),
        decide_peer_output(v).1 matches Action::Write { to, .. } ==> link(v.open, to),
        link(decide_peer_output(v).0.open, ep) ==> link(v.open, ep),
{
}

proof fn lemma_absorb_never_opens(v: RelayView, ev: Event, ep: Endpoint)
    ensures
        link(absorb(v, ev).open, ep) ==> link(v.open, ep),
{
    let w = RelayView { pending: Pending::Nothing, ..v };
    match v.pending {
        Pending::Write(e, k) => match ev {
            Event::Wrote(o) => assert(link(after_write(w, e, k, o).open, ep) ==> link(v.open, ep)),
            _ => {},
        },
        Pending::Read(e) => match ev {
            Event::Read(o) => lemma_after_read_never_opens(w, e, o, ep),
            _ => {},
        },
        _ => {},
    }
}

proof fn lemma_after_read_never_opens(w: RelayView, e: Endpoint, o: ReadOutcome, ep: Endpoint)
    ensures
        link(after_read(w, e, o).open, ep) ==> link(w.open, ep),
{
    match o {
        ReadOutcome::Data(b) => {
            if b@.len() == 0 {
                assert(link(source_done(w, e).open, ep) ==> link(w.open, ep));
            } else {
                assert(take_inbound(w, b@).open == w.open);
                assert(take_outbound(w, b@).open == w.open);
            }
        },
        _ => assert(link(source_done(w, e).open, ep) ==> link(w.open, ep)),
    }
}

/// Once the shell's three streams are closed and released, the last stage of the
/// iteration reaps the shell, unless flushing was asked for and bytes still wait for a
/// peer that is there.
pub proof fn lemma_reap_after_shell_closes(v: RelayView)
    requires
        v.stage == Stage::Check,
        !v.open.stdin && !v.open.stdout && !v.open.stderr,
        !v.held.stdin && !v.held.stdout && !v.held.stderr,
        v.held.peer == v.open.peer,
    ensures
        (decide(v).1 == Action::Reap) == (!v.config.flush_before_exit || !v.open.peer
            || v.to_peer.len() == 0),
        decide(v).1 == Action::Reap ==> decide(v).0.stage == Stage::Reaped,
{
}

/// When the loop serves the shell's input and finds the interrupt byte at its front,
/// it asks for an interrupt signal and takes the byte off; the byte is not written,
/// and every endpoint stays as it was.
pub proof fn lemma_interrupt_byte(v: RelayView)
    requires
        v.open.stdin,
        v.to_shell.len() > 0,
        v.to_shell[0] == INTERRUPT,
    ensures
        decide_shell_input(v).1 == Action::Interrupt,
        decide_shell_input(v).0.to_shell == v.to_shell.drop_first(),
        decide_shell_input(v).0.open == v.open,
        decide_shell_input(v).0.to_peer == v.to_peer,
{
}

/// When the loop serves the shell's input and finds the end-of-input byte at its front,
/// it closes the shell's input: the byte and all that follows it are dropped.
pub proof fn lemma_end_of_input_byte(v: RelayView)
    requires
        v.open.stdin,
        v.to_shell.len() > 0,
        v.to_shell[0] == END_OF_INPUT,
    ensures
        decide_shell_input(v).1 == Action::Close(Endpoint::ShellStdin),
        !decide_shell_input(v).0.open.stdin,
        decide_shell_input(v).0.to_shell.len() == 0,
{
}

/// A write to the shell's input only ever offers ordinary bytes: control bytes are
/// never forwarded to the shell.
pub proof fn lemma_control_bytes_never_written(v: RelayView)
    requires
        relay_wf(v),
        v.pending == Pending::Nothing,
    ensures
        decide(v).1 matches Action::Write { to: Endpoint::ShellStdin, len } ==> {
            &&& 0 < len <= decide(v).0.to_shell.len()
            &&& forall|i: int| 0 <= i < len ==> !is_control(#[trigger] decide(v).0.to_shell[i])
        },
{
    lemma_plain_prefix(v.to_shell);
    lemma_decide_wf(v);
    if !(v.held.stdin && !v.open.stdin) && !(v.held.stdout && !v.open.stdout) && !(v.held.stderr
        && !v.open.stderr) && !(v.held.peer && !v.open.peer) {
        if v.stage == Stage::Probe && !(v.open.stdin && v.snapshot.stdin.hangup) {
            lemma_plain_prefix(RelayView { stage: Stage::ShellInput, ..v }.to_shell);
        }
    }
}

/// Once the shell's input is closed it stays closed, nothing waits for it, and no
/// write to it is ever asked for again.
pub proof fn lemma_closed_input_stays_closed(v: RelayView, ev: Event)
    requires
        relay_wf(v),
        !v.open.stdin,
    ensures
        !absorb(v, ev).open.stdin,
        absorb(v, ev).to_shell.len() == 0,
        !decide(v).0.open.stdin,
        decide(v).0.to_shell.len() == 0,
        !(decide(v).1 matches Action::Write { to: Endpoint::ShellStdin, .. }),
{
}

/// When the peer reports end of stream, the shell's input closes with it and the bytes
/// that still waited for the shell are dropped.
pub proof fn lemma_peer_end_drops_shell_input(v: RelayView, ev: Event)
    requires
        v.pending == Pending::Read(Endpoint::Peer),
        ev matches Event::Read(ReadOutcome::EndOfStream),
    ensures
        !absorb(v, ev).open.stdin,
        !absorb(v, ev).open.peer,
        absorb(v, ev).to_shell.len() == 0,
        absorb(v, ev).to_peer.len() == 0,
{
}

proof fn lemma_plain_prefix_step(s: Seq<u8>, i: int)
    requires
        0 <= i < s.len(),
        !is_control(s[i]),
    ensures
        plain_prefix_len(s.subrange(i, s.len() as int)) == 1 + plain_prefix_len(
            s.subrange(i + 1, s.len() as int),
        ),
{
    assert(s.subrange(i, s.len() as int).drop_first() =~= s.subrange(i + 1, s.len() as int));
}

/// Every byte before `plain_prefix_len(s)` is an ordinary byte, and the prefix fits in
/// `s`.
pub proof fn lemma_plain_prefix(s: Seq<u8>)
    ensures
        plain_prefix_len(s) <= s.len(),
        forall|i: int| 0 <= i < plain_prefix_len(s) ==> !is_control(#[trigger] s[i]),
        plain_prefix_len(s) < s.len() ==> is_control(s[plain_prefix_len(s) as int]),
        s.len() > 0 && !is_control(s[0]) ==> plain_prefix_len(s) > 0,
    decreases s.len(),
{
    if s.len() > 0 && !is_control(s[0]) {
        let t = s.drop_first();
        lemma_plain_prefix(t);
        assert forall|i: int| 0 <= i < plain_prefix_len(s) implies !is_control(#[trigger] s[i]) by {
            if i > 0 {
                assert(s[i] == t[i - 1]);
            }
        }
        if plain_prefix_len(s) < s.len() {
            assert(s[plain_prefix_len(s) as int] == t[plain_prefix_len(t) as int]);
        }
    }
}

/// The length of the longest prefix of `bytes` without a control byte.
pub fn plain_prefix(bytes: &[u8]) -> (k: usize)
    ensures
        k == plain_prefix_len(bytes@),
{
    let mut i: usize = 0;
    proof {
        assert(bytes@.subrange(0, bytes@.len() as int) =~= bytes@);
    }
    while i < bytes.len() && bytes[i] != INTERRUPT && bytes[i] != END_OF_INPUT
        invariant
            i <= bytes@.len(),
            plain_prefix_len(bytes@) == i + plain_prefix_len(
                bytes@.subrange(i as int, bytes@.len() as int),
            ),
        decreases bytes@.len() - i,
    {
        proof {
            lemma_plain_prefix_step(bytes@, i as int);
        }
        i = i + 1;
    }
    proof {
        let rest = bytes@.subrange(i as int, bytes@.len() as int);
        if i < bytes@.len() {
            assert(rest[0] == bytes@[i as int]);
        }
    }
    i
}

impl PeerKind {
    /// The policy for bytes from this kind of peer on their way to the shell.
    pub fn inbound(&self) -> (r: LineEndingTranslation)
        ensures
            r == inbound_translation(*self),
    {
        match self {
            PeerKind::Socket => LineEndingTranslation::Identity,
            PeerKind::Terminal => LineEndingTranslation::CRtoLF,
        }
    }

    /// Whether bytes from this kind of peer are echoed back to it.
    pub fn echoes(&self) -> (r: bool)
        ensures
            r == echoes(*self),
    {
        match self {
            PeerKind::Socket => false,
            PeerKind::Terminal => true,
        }
    }
}

/// A relay session between a shell and one peer.
pub struct RelaySession {
    config: RelayConfig,
    open: Links,
    held: Links,
    stage: Stage,
    pending: Pending,
    snapshot: Snapshot,
    to_shell: WriterBuffer,
    to_peer: WriterBuffer,
}

impl View for RelaySession {
    type V = RelayView;

    closed spec fn view(&self) -> RelayView {
        RelayView {
            config: self.config,
            open: self.open,
            held: self.held,
            stage: self.stage,
            pending: self.pending,
            snapshot: self.snapshot,
            to_shell: self.to_shell@,
            to_peer: self.to_peer@,
        }
    }
}

impl RelaySession {
    pub open spec fn wf(&self) -> bool {
        relay_wf(self@)
    }

    /// A session whose four endpoints are open; its first action is a readiness wait.
    pub fn new(config: RelayConfig) -> (r: RelaySession)
        ensures
            r@ == initial(config),
            r.wf(),
    {
        let q = Readiness { readable: false, writable: false, hangup: false };
        RelaySession {
            config,
            open: Links { stdin: true, stdout: true, stderr: true, peer: true },
            held: Links { stdin: true, stdout: true, stderr: true, peer: true },
            stage: Stage::Poll,
            pending: Pending::Nothing,
            snapshot: Snapshot { stdin: q, stdout: q, stderr: q, peer: q },
            to_shell: WriterBuffer::new(),
            to_peer: WriterBuffer::new(),
        }
    }

    /// The bytes waiting for an endpoint: the shell's input for `ShellStdin`, the
    /// peer's output for any other.
    pub fn outbound(&self, to: Endpoint) -> (r: &[u8])
        ensures
            r@ == (if to == Endpoint::ShellStdin {
                self@.to_shell
            } else {
                self@.to_peer
            }),
    {
        if to == Endpoint::ShellStdin {
            self.to_shell.get_some()
        } else {
            self.to_peer.get_some()
        }
    }

    /// Whether an endpoint is still in use.
    pub fn is_open(&self, ep: Endpoint) -> (r: bool)
        ensures
            r == match ep {
                Endpoint::ShellStdin => self@.open.stdin,
                Endpoint::ShellStdout => self@.open.stdout,
                Endpoint::ShellStderr => self@.open.stderr,
                Endpoint::Peer => self@.open.peer,
            },
    {
        match ep {
            Endpoint::ShellStdin => self.open.stdin,
            Endpoint::ShellStdout => self.open.stdout,
            Endpoint::ShellStderr => self.open.stderr,
            Endpoint::Peer => self.open.peer,
        }
    }

    /// Whether the session is over (its last action was `Reap`).
    pub fn is_finished(&self) -> (r: bool)
        ensures
            r == (self@.stage == Stage::Reaped),
    {
        self.stage == Stage::Reaped
    }

    /// What the next readiness wait should watch.
    pub fn interests(&self) -> (r: Interests)
        ensures
            r == interests(self@),
    {
        let out_throttled = self.open.peer && self.to_peer.len() >= RELAY_LIMIT;
        let in_throttled = (self.open.stdin && self.to_shell.len() >= RELAY_LIMIT) || (
        self.config.peer.echoes() && self.to_peer.len() >= RELAY_LIMIT);
        Interests {
            stdin: Interest { read: false, write: self.open.stdin && self.to_shell.has_content() },
            stdout: Interest { read: self.open.stdout && !out_throttled, write: false },
            stderr: Interest { read: self.open.stderr && !out_throttled, write: false },
            peer: Interest {
                read: self.open.peer && !in_throttled,
                write: self.open.peer && self.to_peer.has_content(),
            },
        }
    }

    fn shut_stdin(&mut self)
        ensures
            final(self)@ == close_stdin(old(self)@),
    {
        self.open.stdin = false;
        self.to_shell.clear();
    }

    fn shut_peer(&mut self)
        ensures
            final(self)@ == close_peer(old(self)@),
    {
        self.shut_stdin();
        self.open.peer = false;
        self.to_peer.clear();
    }

    fn take_inbound(&mut self, b: Vec<u8>)
        ensures
            final(self)@ == take_inbound(old(self)@, b@),
    {
        if self.open.stdin {
            let copy = vstd::slice::slice_to_vec(b.as_slice());
            self.to_shell.push(copy, self.config.peer.inbound());
        }
        if self.config.peer.echoes() && self.open.peer {
            self.to_peer.push(b, LineEndingTranslation::CRtoCRLF);
        }
    }

    fn after_write(&mut self, ep: Endpoint, k: usize, o: WriteOutcome)
        requires
            ep == Endpoint::ShellStdin ==> k <= old(self)@.to_shell.len(),
            ep != Endpoint::ShellStdin ==> k <= old(self)@.to_peer.len(),
        ensures
            final(self)@ == after_write(old(self)@, ep, k, o),
    {
        let next = if ep == Endpoint::ShellStdin {
            Stage::PeerOutput
        } else {
            Stage::ShellStdout
        };
        match o {
            WriteOutcome::Wrote(n) => {
                if n == 0 {
                    self.stage = next;
                } else {
                    let m = if n < k {
                        n
                    } else {
                        k
                    };
                    if ep == Endpoint::ShellStdin {
                        self.to_shell.consume(m);
                    } else {
                        self.to_peer.consume(m);
                    }
                }
            },
            WriteOutcome::BrokenPipe => {
                if ep == Endpoint::ShellStdin {
                    self.shut_stdin();
                } else {
                    self.shut_peer();
                }
                self.stage = next;
            },
            WriteOutcome::WouldBlock => {
                self.stage = next;
            },
        }
    }

    fn stage_after(ep: Endpoint) -> (r: Stage)
        ensures
            r == stage_after(ep),
    {
        if ep == Endpoint::ShellStdout {
            Stage::ShellStderr
        } else if ep == Endpoint::ShellStderr {
            Stage::PeerInput
        } else {
            Stage::Check
        }
    }

    fn source_done(&mut self, ep: Endpoint)
        ensures
            final(self)@ == source_done(old(self)@, ep),
    {
        if ep == Endpoint::ShellStdout {
            self.open.stdout = false;
        } else if ep == Endpoint::ShellStderr {
            self.open.stderr = false;
        } else {
            self.shut_peer();
        }
        self.stage = Self::stage_after(ep);
    }

    fn after_read(&mut self, ep: Endpoint, o: ReadOutcome)
        ensures
            final(self)@ == after_read(old(self)@, ep, o),
    {
        match o {
            ReadOutcome::Data(b) => {
                if b.len() == 0 {
                    self.source_done(ep);
                } else if ep == Endpoint::Peer {
                    self.take_inbound(b);
                } else if self.open.peer {
                    self.to_peer.push(b, LineEndingTranslation::LFtoCRLF);
                }
            },
            ReadOutcome::EndOfStream => self.source_done(ep),
            ReadOutcome::WouldBlock => {
                let hangup = if ep == Endpoint::ShellStdout {
                    self.snapshot.stdout.hangup
                } else if ep == Endpoint::ShellStderr {
                    self.snapshot.stderr.hangup
                } else {
                    self.snapshot.peer.hangup
                };
                if hangup {
                    self.source_done(ep);
                } else {
                    self.stage = Self::stage_after(ep);
                }
            },
        }
    }

    fn absorb(&mut self, ev: Event)
        requires
            old(self).wf(),
        ensures
            final(self)@ == absorb(old(self)@, ev),
            final(self).wf(),
            final(self)@.pending == Pending::Nothing,
    {
        let ghost v0 = self@;
        let p = self.pending;
        self.pending = Pending::Nothing;
        match p {
            Pending::Readiness => match ev {
                Event::Ready(s) => {
                    self.snapshot = s;
                    self.stage = Stage::Probe;
                },
                _ => {},
            },
            Pending::Write(ep, k) => match ev {
                Event::Wrote(o) => {
                    proof {
                        lemma_plain_prefix(self.to_shell@);
                    }
                    self.after_write(ep, k, o);
                },
                _ => {},
            },
            Pending::Read(ep) => match ev {
                Event::Read(o) => self.after_read(ep, o),
                _ => {},
            },
            Pending::Nothing => {},
        }
        let _ = self.to_shell.len();
        let _ = self.to_peer.len();
        proof {
            lemma_absorb_wf(v0, ev);
        }
    }

    fn poll_now(&mut self) -> (r: Action)
        ensures
            (final(self)@, r) == poll_now(old(self)@),
    {
        let i = self.interests();
        self.stage = Stage::Poll;
        self.pending = Pending::Readiness;
        Action::Poll(i)
    }

    fn decide_check(&mut self) -> (r: Action)
        ensures
            (final(self)@, r) == decide_check(old(self)@),
    {
        let done = !self.open.stdin && !self.open.stdout && !self.open.stderr && (
        !self.config.flush_before_exit || !self.open.peer || !self.to_peer.has_content());
        if done {
            self.stage = Stage::Reaped;
            Action::Reap
        } else {
            self.poll_now()
        }
    }

    fn decide_peer_input(&mut self) -> (r: Action)
        ensures
            (final(self)@, r) == decide_peer_input(old(self)@),
    {
        if self.open.peer && (self.snapshot.peer.readable || self.snapshot.peer.hangup) {
            self.pending = Pending::Read(Endpoint::Peer);
            Action::Read(Endpoint::Peer)
        } else {
            self.stage = Stage::Check;
            self.decide_check()
        }
    }

    fn decide_stderr(&mut self) -> (r: Action)
        ensures
            (final(self)@, r) == decide_stderr(old(self)@),
    {
        if self.open.stderr && (self.snapshot.stderr.readable || self.snapshot.stderr.hangup) {
            self.pending = Pending::Read(Endpoint::ShellStderr);
            Action::Read(Endpoint::ShellStderr)
        } else {
            self.stage = Stage::PeerInput;
            self.decide_peer_input()
        }
    }

    fn decide_stdout(&mut self) -> (r: Action)
        ensures
            (final(self)@, r) == decide_stdout(old(self)@),
    {
        if self.open.stdout && (self.snapshot.stdout.readable || self.snapshot.stdout.hangup) {
            self.pending = Pending::Read(Endpoint::ShellStdout);
            Action::Read(Endpoint::ShellStdout)
        } else {
            self.stage = Stage::ShellStderr;
            self.decide_stderr()
        }
    }

    fn decide_peer_output(&mut self) -> (r: Action)
        ensures
            (final(self)@, r) == decide_peer_output(old(self)@),
    {
        if self.open.peer && self.to_peer.has_content() {
            let k = self.to_peer.len();
            self.pending = Pending::Write(Endpoint::Peer, k);
            Action::Write { to: Endpoint::Peer, len: k }
        } else {
            self.stage = Stage::ShellStdout;
            self.decide_stdout()
        }
    }

    #[verifier::rlimit(50)]
    fn decide_shell_input(&mut self) -> (r: Action)
        ensures
            (final(self)@, r) == decide_shell_input(old(self)@),
    {
        if self.open.stdin && self.to_shell.has_content() {
            let front = match self.to_shell.get_next() {
                Some(b) => b,
                None => 0,
            };
            if front == INTERRUPT {
                self.to_shell.consume(1);
                self.stage = Stage::Poll;
                proof {
                    assert(self.to_shell@ =~= old(self)@.to_shell.drop_first());
                }
                Action::Interrupt
            } else if front == END_OF_INPUT {
                self.shut_stdin();
                self.held.stdin = false;
                self.stage = Stage::Poll;
                Action::Close(Endpoint::ShellStdin)
            } else {
                let k = plain_prefix(self.to_shell.get_some());
                self.pending = Pending::Write(Endpoint::ShellStdin, k);
                Action::Write { to: Endpoint::ShellStdin, len: k }
            }
        } else {
            self.stage = Stage::PeerOutput;
            self.decide_peer_output()
        }
    }

    fn decide_probe(&mut self) -> (r: Action)
        ensures
            (final(self)@, r) == decide_probe(old(self)@),
    {
        if self.open.stdin && self.snapshot.stdin.hangup {
            self.shut_stdin();
            self.held.stdin = false;
            self.stage = Stage::ShellInput;
            Action::Close(Endpoint::ShellStdin)
        } else {
            self.stage = Stage::ShellInput;
            self.decide_shell_input()
        }
    }

    fn decide(&mut self) -> (r: Action)
        ensures
            (final(self)@, r) == decide(old(self)@),
    {
        if self.held.stdin && !self.open.stdin {
            self.held.stdin = false;
            Action::Close(Endpoint::ShellStdin)
        } else if self.held.stdout && !self.open.stdout {
            self.held.stdout = false;
            Action::Close(Endpoint::ShellStdout)
        } else if self.held.stderr && !self.open.stderr {
            self.held.stderr = false;
            Action::Close(Endpoint::ShellStderr)
        } else if self.held.peer && !self.open.peer {
            self.held.peer = false;
            Action::Close(Endpoint::Peer)
        } else {
            match self.stage {
                Stage::Poll => self.poll_now(),
                Stage::Probe => self.decide_probe(),
                Stage::ShellInput => self.decide_shell_input(),
                Stage::PeerOutput => self.decide_peer_output(),
                Stage::ShellStdout => self.decide_stdout(),
                Stage::ShellStderr => self.decide_stderr(),
                Stage::PeerInput => self.decide_peer_input(),
                Stage::Check => self.decide_check(),
                Stage::Reaped => Action::Reap,
            }
        }
    }

    /// Takes the caller's answer to the last action (`Event::Done` at the start) and
    /// returns the next action.
    pub fn step(&mut self, ev: Event) -> (r: Action)
        requires
            old(self).wf(),
        ensures
            (final(self)@, r) == decide(absorb(old(self)@, ev)),
            final(self).wf(),
    {
        self.absorb(ev);
        proof {
            lemma_decide_wf(self@);
        }
        self.decide()
    }
}

} // verus!
