//! One client session as a state machine. The caller performs the I/O: it
//! reads the bytes asked for, writes what a step hands back, dials a target
//! and relays; the handler decides what comes next.
use vstd::prelude::*;

use crate::request::{spec_parse, spec_request_needed, request_needed, Socks5Req};
use crate::target::{spec_target, Target, TargetModel};
use crate::wire::{auth_reply, success_reply, spec_success_reply, AuthMethod, SOCKS_VERSION};

verus! {

/// How many more bytes the greeting beginning with `s` needs: two header
/// bytes, then as many method bytes as the second one counts.
pub open spec fn spec_greeting_needed(s: Seq<u8>) -> int {
    if s.len() < 2 {
        2 - s.len()
    } else if s.len() < 2 + s[1] {
        2 + s[1] - s.len()
    } else {
        0
    }
}

/// A greeting `[v, n]` followed by `n` method bytes asks, after its header,
/// for exactly those `n` bytes (for none when `n` is zero), and is then
/// complete; `on_read` answers a complete greeting with `[5, 0]`.
pub proof fn greeting_framing(v: u8, methods: Seq<u8>)
    requires
        methods.len() <= 255,
    ensures
        spec_greeting_needed(Seq::empty()) == 2,
        spec_greeting_needed(seq![v, methods.len() as u8]) == methods.len(),
        spec_greeting_needed(seq![v, methods.len() as u8] + methods) == 0,
{
}

/// Phases of a session.
#[derive(Clone, Copy, Debug, PartialEq, Eq, Structural)]
pub enum Phase {
    Greeting,
    Request,
    Dialing,
    Relaying,
    Closed,
}

/// What the caller does after writing a step's bytes.
#[derive(Debug)]
pub enum Next {
    /// Read at most this many bytes and hand them to `on_read`.
    Read(usize),
    /// Dial the target and report the outcome to `on_dial`.
    Dial(Target),
    /// Relay bytes both ways until both sides are done.
    Relay,
    /// Close the client connection.
    Close,
}

/// What `Next` stands for, over models.
pub enum NextModel {
    Read(nat),
    Dial(TargetModel),
    Relay,
    Close,
}

/// Bytes to write to the client, then what to do.
#[derive(Debug)]
pub struct Step {
    pub write: Vec<u8>,
    pub next: Next,
}

/// What `Step` stands for: the bytes to write and what comes next.
pub struct StepModel {
    pub write: Seq<u8>,
    pub next: NextModel,
}

impl View for Step {
    type V = StepModel;

    open spec fn view(&self) -> StepModel {
        StepModel {
            write: self.write@,
            next: match self.next {
                Next::Read(n) => NextModel::Read(n as nat),
                Next::Dial(t) => NextModel::Dial(t@),
                Next::Relay => NextModel::Relay,
                Next::Close => NextModel::Close,
            },
        }
    }
}

/// Close with nothing written.
pub open spec fn closing() -> StepModel {
    StepModel { write: Seq::empty(), next: NextModel::Close }
}

/// The state of a session: its phase, the bytes of the message being read,
/// and how many more that message needs.
pub struct SessionModel {
    pub phase: Phase,
    pub buf: Seq<u8>,
    pub pending: nat,
}

/// The protocol state of one client connection.
pub struct Socks5Handler {
    phase: Phase,
    buf: Vec<u8>,
    pending: usize,
}

impl View for Socks5Handler {
    type V = SessionModel;

    closed spec fn view(&self) -> SessionModel {
        SessionModel { phase: self.phase, buf: self.buf@, pending: self.pending as nat }
    }
}

/// Selects the authentication method among those a client offers. Only
/// no-authentication is implemented, and it is selected whatever was offered.
pub fn select_method(offered: &[u8]) -> (r: AuthMethod)
    ensures
        r == AuthMethod::NoAuth,
{
    AuthMethod::NoAuth
}

/// How many more bytes the greeting beginning with `buf` needs.
pub fn greeting_needed(buf: &[u8]) -> (r: usize)
    ensures
        r as int == spec_greeting_needed(buf@),
{
    let len = buf.len();
    if len < 2 {
        2 - len
    } else {
        let total: usize = 2 + buf[1] as usize;
        if len < total {
            total - len
        } else {
            0
        }
    }
}

fn append(buf: &mut Vec<u8>, data: &[u8])
    ensures
        final(buf)@ == old(buf)@ + data@,
{
    let mut i: usize = 0;
    while i < data.len()
        invariant
            0 <= i <= data@.len(),
            buf@ == old(buf)@ + data@.subrange(0, i as int),
        decreases data@.len() - i,
    {
        buf.push(data[i]);
        i += 1;
        assert(buf@ =~= old(buf)@ + data@.subrange(0, i as int));
    }
    assert(data@.subrange(0, data@.len() as int) =~= data@);
}

impl Socks5Handler {
    /// A message is being read, and `pending` is what it still needs.
    pub closed spec fn wf(&self) -> bool {
        &&& self.phase == Phase::Greeting ==> self.pending > 0 && self.pending as int
            == spec_greeting_needed(self.buf@)
        &&& self.phase == Phase::Request ==> self.pending > 0 && spec_request_needed(self.buf@)
            == Ok::<int, crate::wire::Socks5Error>(self.pending as int)
    }

    /// A fresh session, about to read the greeting.
    pub fn new() -> (r: (Socks5Handler, Step))
        ensures
            r.0.wf(),
            r.0@ == (SessionModel { phase: Phase::Greeting, buf: Seq::empty(), pending: 2 }),
            r.1@ == (StepModel { write: Seq::empty(), next: NextModel::Read(2) }),
    {
        let h = Socks5Handler { phase: Phase::Greeting, buf: Vec::new(), pending: 2 };
        (h, Step { write: Vec::new(), next: Next::Read(2) })
    }

    fn close(&mut self) -> (r: Step)
        ensures
            final(self)@.phase == Phase::Closed,
            final(self).wf(),
            r@ == closing(),
    {
        self.phase = Phase::Closed;
        self.pending = 0;
        Step { write: Vec::new(), next: Next::Close }
    }

    /// Takes bytes read from the client. Empty input (end of stream), more
    /// than was asked for, or input outside a reading phase closes the
    /// session. A complete greeting is answered with `[5, 0]`; a complete
    /// request leads to a dial of its target; an unknown address type or an
    /// undecodable domain name closes the session with nothing written.
    pub fn on_read(&mut self, data: &[u8]) -> (r: Step)
        requires
            old(self).wf(),
        ensures
            final(self).wf(),
            ({
                let m = old(self)@;
                let s = m.buf + data@;
                let n = spec_request_needed(s)->Ok_0;
                let reading = (m.phase == Phase::Greeting || m.phase == Phase::Request) && 0
                    < data@.len() <= m.pending;
                &&& !reading ==> r@ == closing() && final(self)@.phase == Phase::Closed
                &&& reading && m.phase == Phase::Greeting && spec_greeting_needed(s) > 0 ==> r@
                    == (StepModel {
                    write: Seq::empty(),
                    next: NextModel::Read(spec_greeting_needed(s) as nat),
                }) && final(self)@ == (SessionModel {
                    phase: Phase::Greeting,
                    buf: s,
                    pending: spec_greeting_needed(s) as nat,
                })
                &&& reading && m.phase == Phase::Greeting && spec_greeting_needed(s) == 0 ==> r@
                    == (StepModel { write: seq![5u8, 0u8], next: NextModel::Read(4) })
                    && final(self)@ == (SessionModel {
                    phase: Phase::Request,
                    buf: Seq::empty(),
                    pending: 4,
                })
                &&& reading && m.phase == Phase::Request && spec_request_needed(s) is Err ==> r@
                    == closing() && final(self)@.phase == Phase::Closed
                &&& reading && m.phase == Phase::Request && spec_request_needed(s) is Ok && n > 0
                    ==> r@ == (StepModel {
                    write: Seq::empty(),
                    next: NextModel::Read(n as nat),
                }) && final(self)@ == (SessionModel {
                    phase: Phase::Request,
                    buf: s,
                    pending: n as nat,
                })
                &&& reading && m.phase == Phase::Request && spec_request_needed(s) == Ok::<
                    int,
                    crate::wire::Socks5Error,
                >(0) ==> match spec_target(spec_parse(s)->Ok_0) {
                    Ok(t) => r@ == (StepModel { write: Seq::empty(), next: NextModel::Dial(t) })
                        && final(self)@.phase == Phase::Dialing,
                    Err(_) => r@ == closing() && final(self)@.phase == Phase::Closed,
                }
            }),
    {
        let reading = match self.phase {
            Phase::Greeting => true,
            Phase::Request => true,
            _ => false,
        };
        if !reading || data.len() == 0 || data.len() > self.pending {
            return self.close();
        }
        append(&mut self.buf, data);
        if self.phase == Phase::Greeting {
            let n = greeting_needed(self.buf.as_slice());
            if n > 0 {
                self.pending = n;
                return Step { write: Vec::new(), next: Next::Read(n) };
            }
            let b = self.buf.as_slice();
            let method = select_method(b);
            let write = auth_reply(method);
            assert(write@ =~= seq![SOCKS_VERSION, 0u8]);
            self.phase = Phase::Request;
            self.buf = Vec::new();
            self.pending = 4;
            return Step { write, next: Next::Read(4) };
        }
        match request_needed(self.buf.as_slice()) {
            Err(_) => self.close(),
            Ok(n) => {
                if n > 0 {
                    self.pending = n;
                    return Step { write: Vec::new(), next: Next::Read(n) };
                }
                let parsed = Socks5Req::parse(self.buf.as_slice());
                match parsed {
                    Err(_) => self.close(),
                    Ok(q) => match q.target() {
                        Err(_) => self.close(),
                        Ok(t) => {
                            self.phase = Phase::Dialing;
                            self.pending = 0;
                            Step { write: Vec::new(), next: Next::Dial(t) }
                        },
                    },
                }
            },
        }
    }

    /// Takes the outcome of the dial. On success the reply
    /// `[5, 0, 0, 1, 0, 0, 0, 0, 0, 0]` is written and the relay begins;
    /// otherwise, or outside the dialing phase, the session closes with
    /// nothing written.
    pub fn on_dial(&mut self, connected: bool) -> (r: Step)
        requires
            old(self).wf(),
        ensures
            final(self).wf(),
            old(self)@.phase == Phase::Dialing && connected ==> r@ == (StepModel {
                write: spec_success_reply(),
                next: NextModel::Relay,
            }) && final(self)@.phase == Phase::Relaying,
            !(old(self)@.phase == Phase::Dialing && connected) ==> r@ == closing()
                && final(self)@.phase == Phase::Closed,
    {
        if self.phase == Phase::Dialing && connected {
            self.phase = Phase::Relaying;
            Step { write: success_reply(), next: Next::Relay }
        } else {
            self.close()
        }
    }

    /// The session's phase.
    pub fn phase(&self) -> (r: Phase)
        ensures
            r == self@.phase,
    {
        self.phase
    }
}

} // verus!
