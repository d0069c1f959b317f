//! The terminal-facing loop of a networked session, as a state machine.
//!
//! A client session connects a keyboard and a screen to a remote peer. Keyboard
//! bytes are echoed to the screen with each carriage return followed by a line
//! feed, and sent to the peer with each carriage return turned into a line feed;
//! bytes from the peer go to the screen as they are. The session ends when the
//! keyboard or the peer reaches end of stream or hangs up, or when the peer or
//! the screen can no longer be written.
use vstd::prelude::*;
use crate::buffer::WriterBuffer;
use crate::relay::{END_OF_INPUT, RELAY_LIMIT};
use crate::stream::{quiet, Interest, ReadOutcome, Readiness, WriteOutcome};
use crate::translate::{translate_byte, translated, LineEndingTranslation, CR, LF};

verus! {

/// One of the three streams of a client session.
#[derive(Debug, Clone, Copy, PartialEq, Eq, Structural)]
pub enum ClientEndpoint {
    Keyboard,
    Screen,
    Peer,
}

/// What a readiness wait reported for the two sources.
#[derive(Debug, Clone, Copy, PartialEq, Eq, Structural)]
pub struct ClientSnapshot {
    pub keyboard: Readiness,
    pub peer: Readiness,
}

/// What a readiness wait should watch, per stream.
#[derive(Debug, Clone, Copy, PartialEq, Eq, Structural)]
pub struct ClientInterests {
    pub keyboard: Interest,
    pub screen: Interest,
    pub peer: Interest,
}

/// Where a client session is within one iteration of its loop.
#[derive(Debug, Clone, Copy, PartialEq, Eq, Structural)]
pub enum ClientStage {
    Poll,
    PeerOutput,
    Keyboard,
    PeerInput,
    Screen,
    Check,
    Finished,
}

/// The event that a client session waits for.
#[derive(Debug, Clone, Copy, PartialEq, Eq, Structural)]
pub enum ClientPending {
    Nothing,
    Readiness,
    Write(ClientEndpoint, usize),
    Read(ClientEndpoint),
}

/// What the caller did, answering the last action.
pub enum ClientEvent {
    /// The answer at the start.
    Done,
    Ready(ClientSnapshot),
    Wrote(WriteOutcome),
    Read(ReadOutcome),
}

/// What the caller is to do next.
#[derive(Debug, Clone, Copy, PartialEq, Eq, Structural)]
pub enum ClientAction {
    /// Wait (with a short timeout) until one of the interests is met, then answer
    /// with `ClientEvent::Ready`.
    Poll(ClientInterests),
    /// Write the first `len` bytes of `outbound(to)` to `to`, then answer with
    /// `ClientEvent::Wrote`.
    Write { to: ClientEndpoint, len: usize },
    /// Read a chunk from the endpoint, then answer with `ClientEvent::Read`.
    Read(ClientEndpoint),
    /// The session is over.
    Finish,
}

/// The abstract state of a client session.
pub struct ClientView {
    pub stage: ClientStage,
    pub pending: ClientPending,
    pub snapshot: ClientSnapshot,
    /// Set once the session is to end after this iteration.
    pub ending: bool,
    /// Bytes waiting for the peer.
    pub to_peer: Seq<u8>,
    /// Bytes waiting for the screen.
    pub to_screen: Seq<u8>,
}

pub open spec fn client_initial() -> ClientView {
    ClientView {
        stage: ClientStage::Poll,
        pending: ClientPending::Nothing,
        snapshot: ClientSnapshot { keyboard: quiet(), peer: quiet() },
        ending: false,
        to_peer: Seq::empty(),
        to_screen: Seq::empty(),
    }
}

pub open spec fn client_wf(v: ClientView) -> bool {
    &&& v.pending matches ClientPending::Write(ep, k) ==> {
        ||| ep == ClientEndpoint::Peer && 0 < k <= v.to_peer.len()
        ||| ep == ClientEndpoint::Screen && 0 < k <= v.to_screen.len()
    }
    &&& v.to_peer.len() <= usize::MAX
    &&& v.to_screen.len() <= usize::MAX
}

/// The keyboard is not read while either buffer it feeds is over the limit, nor the
/// peer while the screen's buffer is.
pub open spec fn client_interests(v: ClientView) -> ClientInterests {
    ClientInterests {
        keyboard: Interest {
            read: v.to_peer.len() < RELAY_LIMIT && v.to_screen.len() < RELAY_LIMIT,
            write: false,
        },
        screen: Interest { read: false, write: v.to_screen.len() > 0 },
        peer: Interest { read: v.to_screen.len() < RELAY_LIMIT, write: v.to_peer.len() > 0 },
    }
}

/// The session is to end: the loop goes on to write the screen, then finishes.
pub open spec fn client_end(v: ClientView) -> ClientView {
    ClientView { ending: true, stage: ClientStage::Screen, ..v }
}

/// Keyboard bytes: echoed to the screen and queued for the peer.
pub open spec fn take_keys(v: ClientView, b: Seq<u8>) -> ClientView {
    ClientView {
        to_screen: v.to_screen + translated(b, LineEndingTranslation::CRtoCRLF),
        to_peer: v.to_peer + translated(b, LineEndingTranslation::CRtoLF),
        ..v
    }
}

pub open spec fn client_after_write(
    v: ClientView,
    ep: ClientEndpoint,
    k: usize,
    o: WriteOutcome,
) -> ClientView {
    let next = if ep == ClientEndpoint::Peer {
        ClientStage::Keyboard
    } else {
        ClientStage::Check
    };
    match o {
        WriteOutcome::Wrote(n) => if n == 0 {
            ClientView { stage: next, ..v }
        } else {
            let m: int = if n < k { n as int } else { k as int };
            if ep == ClientEndpoint::Peer {
                ClientView { to_peer: v.to_peer.subrange(m, v.to_peer.len() as int), ..v }
            } else {
                ClientView { to_screen: v.to_screen.subrange(m, v.to_screen.len() as int), ..v }
            }
        },
        WriteOutcome::BrokenPipe => if ep == ClientEndpoint::Peer {
            client_end(ClientView { to_peer: Seq::empty(), ..v })
        } else {
            ClientView {
                ending: true,
                to_screen: Seq::empty(),
                stage: ClientStage::Check,
                ..v
            }
        },
        WriteOutcome::WouldBlock => ClientView { stage: next, ..v },
    }
}

pub open spec fn client_after_read(v: ClientView, ep: ClientEndpoint, o: ReadOutcome) -> ClientView {
    let hangup = if ep == ClientEndpoint::Keyboard {
        v.snapshot.keyboard.hangup
    } else {
        v.snapshot.peer.hangup
    };
    let next = if ep == ClientEndpoint::Keyboard {
        ClientStage::PeerInput
    } else {
        ClientStage::Screen
    };
    match o {
        ReadOutcome::Data(b) => if b@.len() == 0 {
            client_end(v)
        } else if ep == ClientEndpoint::Keyboard {
            take_keys(v, b@)
        } else {
            ClientView { to_screen: v.to_screen + b@, ..v }
        },
        ReadOutcome::EndOfStream => client_end(v),
        ReadOutcome::WouldBlock => if hangup {
            client_end(v)
        } else {
            ClientView { stage: next, ..v }
        },
    }
}

pub open spec fn client_absorb(v: ClientView, ev: ClientEvent) -> ClientView {
    let w = ClientView { pending: ClientPending::Nothing, ..v };
    match v.pending {
        ClientPending::Readiness => match ev {
            ClientEvent::Ready(s) => ClientView { snapshot: s, stage: ClientStage::PeerOutput, ..w },
            _ => w,
        },
        ClientPending::Write(ep, k) => match ev {
            ClientEvent::Wrote(o) => client_after_write(w, ep, k, o),
            _ => w,
        },
        ClientPending::Read(ep) => match ev {
            ClientEvent::Read(o) => client_after_read(w, ep, o),
            _ => w,
        },
        ClientPending::Nothing => w,
    }
}

pub open spec fn client_poll_now(v: ClientView) -> (ClientView, ClientAction) {
    (
        ClientView { stage: ClientStage::Poll, pending: ClientPending::Readiness, ..v },
        ClientAction::Poll(client_interests(v)),
    )
}

pub open spec fn client_decide_check(v: ClientView) -> (ClientView, ClientAction) {
    if v.ending {
        (ClientView { stage: ClientStage::Finished, ..v }, ClientAction::Finish)
    } else {
        client_poll_now(v)
    }
}

pub open spec fn client_decide_screen(v: ClientView) -> (ClientView, ClientAction) {
    if v.to_screen.len() > 0 {
        let k = v.to_screen.len() as usize;
        (
            ClientView { pending: ClientPending::Write(ClientEndpoint::Screen, k), ..v },
            ClientAction::Write { to: ClientEndpoint::Screen, len: k },
        )
    } else {
        client_decide_check(ClientView { stage: ClientStage::Check, ..v })
    }
}

pub open spec fn client_decide_peer_input(v: ClientView) -> (ClientView, ClientAction) {
    if v.snapshot.peer.readable || v.snapshot.peer.hangup {
        (
            ClientView { pending: ClientPending::Read(ClientEndpoint::Peer), ..v },
            ClientAction::Read(ClientEndpoint::Peer),
        )
    } else {
        client_decide_screen(ClientView { stage: ClientStage::Screen, ..v })
    }
}

pub open spec fn client_decide_keyboard(v: ClientView) -> (ClientView, ClientAction) {
    if v.snapshot.keyboard.readable || v.snapshot.keyboard.hangup {
        (
            ClientView { pending: ClientPending::Read(ClientEndpoint::Keyboard), ..v },
            ClientAction::Read(ClientEndpoint::Keyboard),
        )
    } else {
        client_decide_peer_input(ClientView { stage: ClientStage::PeerInput, ..v })
    }
}

pub open spec fn client_decide_peer_output(v: ClientView) -> (ClientView, ClientAction) {
    if v.to_peer.len() > 0 {
        let k = v.to_peer.len() as usize;
        (
            ClientView { pending: ClientPending::Write(ClientEndpoint::Peer, k), ..v },
            ClientAction::Write { to: ClientEndpoint::Peer, len: k },
        )
    } else {
        client_decide_keyboard(ClientView { stage: ClientStage::Keyboard, ..v })
    }
}

/// The next action, from where the iteration stands.
pub open spec fn client_decide(v: ClientView) -> (ClientView, ClientAction) {
    match v.stage {
        ClientStage::Poll => client_poll_now(v),
        ClientStage::PeerOutput => client_decide_peer_output(v),
        ClientStage::Keyboard => client_decide_keyboard(v),
        ClientStage::PeerInput => client_decide_peer_input(v),
        ClientStage::Screen => client_decide_screen(v),
        ClientStage::Check => client_decide_check(v),
        ClientStage::Finished => (v, ClientAction::Finish),
    }
}

/// What the screen shows for one key in the plain echo mode, or `None` for the
/// end-of-input key, which ends that mode. Keys are echoed under `CRtoCRLF`, as in
/// every local echo: a carriage return shows as CR LF, any other key (a line feed
/// included) as itself.
pub fn key_echo(c: u8) -> (r: Option<Vec<u8>>)
    ensures
        c == END_OF_INPUT <==> r is None,
        r matches Some(e) ==> e@ == translate_byte(c, LineEndingTranslation::CRtoCRLF),
{
    if c == END_OF_INPUT {
        None
    } else {
        let mut e: Vec<u8> = Vec::new();
        e.push(c);
        if c == CR {
            e.push(LF);
            proof {
                assert(e@ =~= seq![CR, LF]);
            }
        } else {
            proof {
                assert(e@ =~= seq![c]);
            }
        }
        Some(e)
    }
}

proof fn lemma_client_absorb_wf(v: ClientView, ev: ClientEvent)
    requires
        client_wf(v),
        client_absorb(v, ev).to_peer.len() <= usize::MAX,
        client_absorb(v, ev).to_screen.len() <= usize::MAX,
    ensures
        client_wf(client_absorb(v, ev)),
        client_absorb(v, ev).pending == ClientPending::Nothing,
{
}

proof fn lemma_client_decide_wf(v: ClientView)
    requires
        client_wf(v),
        v.pending == ClientPending::Nothing,
    ensures
        client_wf(client_decide(v).0),
{
}

/// The terminal side of a networked session.
pub struct ClientSession {
    stage: ClientStage,
    pending: ClientPending,
    snapshot: ClientSnapshot,
    ending: bool,
    to_peer: WriterBuffer,
    to_screen: WriterBuffer,
}

impl View for ClientSession {
    type V = ClientView;

    closed spec fn view(&self) -> ClientView {
        ClientView {
            stage: self.stage,
            pending: self.pending,
            snapshot: self.snapshot,
            ending: self.ending,
            to_peer: self.to_peer@,
            to_screen: self.to_screen@,
        }
    }
}

impl ClientSession {
    pub open spec fn wf(&self) -> bool {
        client_wf(self@)
    }

    /// A session with nothing pending; its first action is a readiness wait.
    pub fn new() -> (r: ClientSession)
        ensures
            r@ == client_initial(),
            r.wf(),
    {
        let q = Readiness { readable: false, writable: false, hangup: false };
        ClientSession {
            stage: ClientStage::Poll,
            pending: ClientPending::Nothing,
            snapshot: ClientSnapshot { keyboard: q, peer: q },
            ending: false,
            to_peer: WriterBuffer::new(),
            to_screen: WriterBuffer::new(),
        }
    }

    /// The bytes waiting for the peer (for `Peer`) or for the screen (for any other).
    pub fn outbound(&self, to: ClientEndpoint) -> (r: &[u8])
        ensures
            r@ == (if to == ClientEndpoint::Peer {
                self@.to_peer
            } else {
                self@.to_screen
            }),
    {
        if to == ClientEndpoint::Peer {
            self.to_peer.get_some()
        } else {
            self.to_screen.get_some()
        }
    }

    /// Whether the session is over (its last action was `Finish`).
    pub fn is_finished(&self) -> (r: bool)
        ensures
            r == (self@.stage == ClientStage::Finished),
    {
        self.stage == ClientStage::Finished
    }

    fn end(&mut self)
        ensures
            final(self)@ == client_end(old(self)@),
    {
        self.ending = true;
        self.stage = ClientStage::Screen;
    }

    fn after_write(&mut self, ep: ClientEndpoint, k: usize, o: WriteOutcome)
        requires
            ep == ClientEndpoint::Peer ==> k <= old(self)@.to_peer.len(),
            ep != ClientEndpoint::Peer ==> k <= old(self)@.to_screen.len(),
        ensures
            final(self)@ == client_after_write(old(self)@, ep, k, o),
    {
        let next = if ep == ClientEndpoint::Peer {
            ClientStage::Keyboard
        } else {
            ClientStage::Check
        };
        match o {
            WriteOutcome::Wrote(n) => {
                if n == 0 {
                    self.stage = next;
                } else {
                    let m = if n < k {
                        n
                    } else {
                        k
                    };
                    if ep == ClientEndpoint::Peer {
                        self.to_peer.consume(m);
                    } else {
                        self.to_screen.consume(m);
                    }
                }
            },
            WriteOutcome::BrokenPipe => {
                if ep == ClientEndpoint::Peer {
                    self.to_peer.clear();
                    self.end();
                } else {
                    self.ending = true;
                    self.to_screen.clear();
                    self.stage = ClientStage::Check;
                }
            },
            WriteOutcome::WouldBlock => {
                self.stage = next;
            },
        }
    }

    fn after_read(&mut self, ep: ClientEndpoint, o: ReadOutcome)
        ensures
            final(self)@ == client_after_read(old(self)@, ep, o),
    {
        match o {
            ReadOutcome::Data(b) => {
                if b.len() == 0 {
                    self.end();
                } else if ep == ClientEndpoint::Keyboard {
                    let copy = vstd::slice::slice_to_vec(b.as_slice());
                    self.to_screen.push(copy, LineEndingTranslation::CRtoCRLF);
                    self.to_peer.push(b, LineEndingTranslation::CRtoLF);
                } else {
                    self.to_screen.push_into(b);
                }
            },
            ReadOutcome::EndOfStream => self.end(),
            ReadOutcome::WouldBlock => {
                let hangup = if ep == ClientEndpoint::Keyboard {
                    self.snapshot.keyboard.hangup
                } else {
                    self.snapshot.peer.hangup
                };
                if hangup {
                    self.end();
                } else if ep == ClientEndpoint::Keyboard {
                    self.stage = ClientStage::PeerInput;
                } else {
                    self.stage = ClientStage::Screen;
                }
            },
        }
    }

    fn absorb(&mut self, ev: ClientEvent)
        requires
            old(self).wf(),
        ensures
            final(self)@ == client_absorb(old(self)@, ev),
            final(self).wf(),
            final(self)@.pending == ClientPending::Nothing,
    {
        let ghost v0 = self@;
        let p = self.pending;
        self.pending = ClientPending::Nothing;
        match p {
            ClientPending::Readiness => match ev {
                ClientEvent::Ready(s) => {
                    self.snapshot = s;
                    self.stage = ClientStage::PeerOutput;
                },
                _ => {},
            },
            ClientPending::Write(ep, k) => match ev {
                ClientEvent::Wrote(o) => self.after_write(ep, k, o),
                _ => {},
            },
            ClientPending::Read(ep) => match ev {
                ClientEvent::Read(o) => self.after_read(ep, o),
                _ => {},
            },
            ClientPending::Nothing => {},
        }
        let _ = self.to_peer.len();
        let _ = self.to_screen.len();
        proof {
            lemma_client_absorb_wf(v0, ev);
        }
    }

    /// What the next readiness wait should watch.
    pub fn interests(&self) -> (r: ClientInterests)
        ensures
            r == client_interests(self@),
    {
        ClientInterests {
            keyboard: Interest {
                read: self.to_peer.len() < RELAY_LIMIT && self.to_screen.len() < RELAY_LIMIT,
                write: false,
            },
            screen: Interest { read: false, write: self.to_screen.has_content() },
            peer: Interest {
                read: self.to_screen.len() < RELAY_LIMIT,
                write: self.to_peer.has_content(),
            },
        }
    }

    fn poll_now(&mut self) -> (r: ClientAction)
        ensures
            (final(self)@, r) == client_poll_now(old(self)@),
    {
        let i = self.interests();
        self.stage = ClientStage::Poll;
        self.pending = ClientPending::Readiness;
        ClientAction::Poll(i)
    }

    fn decide_check(&mut self) -> (r: ClientAction)
        ensures
            (final(self)@, r) == client_decide_check(old(self)@),
    {
        if self.ending {
            self.stage = ClientStage::Finished;
            ClientAction::Finish
        } else {
            self.poll_now()
        }
    }

    fn decide_screen(&mut self) -> (r: ClientAction)
        ensures
            (final(self)@, r) == client_decide_screen(old(self)@),
    {
        if self.to_screen.has_content() {
            let k = self.to_screen.len();
            self.pending = ClientPending::Write(ClientEndpoint::Screen, k);
            ClientAction::Write { to: ClientEndpoint::Screen, len: k }
        } else {
            self.stage = ClientStage::Check;
            self.decide_check()
        }
    }

    fn decide_peer_input(&mut self) -> (r: ClientAction)
        ensures
            (final(self)@, r) == client_decide_peer_input(old(self)@),
    {
        if self.snapshot.peer.readable || self.snapshot.peer.hangup {
            self.pending = ClientPending::Read(ClientEndpoint::Peer);
            ClientAction::Read(ClientEndpoint::Peer)
        } else {
            self.stage = ClientStage::Screen;
            self.decide_screen()
        }
    }

    fn decide_keyboard(&mut self) -> (r: ClientAction)
        ensures
            (final(self)@, r) == client_decide_keyboard(old(self)@),
    {
        if self.snapshot.keyboard.readable || self.snapshot.keyboard.hangup {
            self.pending = ClientPending::Read(ClientEndpoint::Keyboard);
            ClientAction::Read(ClientEndpoint::Keyboard)
        } else {
            self.stage = ClientStage::PeerInput;
            self.decide_peer_input()
        }
    }

    fn decide_peer_output(&mut self) -> (r: ClientAction)
        ensures
            (final(self)@, r) == client_decide_peer_output(old(self)@),
    {
        if self.to_peer.has_content() {
            let k = self.to_peer.len();
            self.pending = ClientPending::Write(ClientEndpoint::Peer, k);
            ClientAction::Write { to: ClientEndpoint::Peer, len: k }
        } else {
            self.stage = ClientStage::Keyboard;
            self.decide_keyboard()
        }
    }

    fn decide(&mut self) -> (r: ClientAction)
        ensures
            (final(self)@, r) == client_decide(old(self)@),
    {
        match self.stage {
            ClientStage::Poll => self.poll_now(),
            ClientStage::PeerOutput => self.decide_peer_output(),
            ClientStage::Keyboard => self.decide_keyboard(),
            ClientStage::PeerInput => self.decide_peer_input(),
            ClientStage::Screen => self.decide_screen(),
            ClientStage::Check => self.decide_check(),
            ClientStage::Finished => ClientAction::Finish,
        }
    }

    /// Takes the caller's answer to the last action (`ClientEvent::Done` at the start)
    /// and returns the next action.
    pub fn step(&mut self, ev: ClientEvent) -> (r: ClientAction)
        requires
            old(self).wf(),
        ensures
            (final(self)@, r) == client_decide(client_absorb(old(self)@, ev)),
            final(self).wf(),
    {
        self.absorb(ev);
        proof {
            lemma_client_decide_wf(self@);
        }
        self.decide()
    }
}

} // verus!
