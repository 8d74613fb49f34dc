//! One connection to the remote console.

use std::time::Instant;
use vstd::prelude::*;
use vstd::string::*;

use crate::ip::IpAddr;
use crate::rate_limiter::RateLimiter;
use crate::rcon::{
    judge_login, ClientboundPacket, LoginVerdict, Packet, ServerboundPacket, REFUSED_ID,
};

verus! {

/// What happens on a connection.
pub enum ClientEvent {
    /// The connection has its turn.
    Handle,
    /// The stream could not be read.
    ReadFailed,
    /// These bytes were read. Where there are none, the stream is closed.
    BytesRead(Vec<u8>),
    /// The bytes that came in are not those of a packet. These are left.
    PacketFailed { incoming: Vec<u8> },
    /// The bytes that came in do not make up a packet yet. These are left.
    NoPacket { incoming: Vec<u8> },
    /// The bytes that came in held a packet. These are left.
    PacketReceived { packet: Packet, incoming: Vec<u8> },
    /// A packet was sent.
    Sent,
    /// A packet could not be sent.
    SendFailed,
    /// A command was run and put out these lines.
    CommandRun { output: Vec<String> },
}

/// What is done next on a connection.
pub enum ClientAction {
    /// Read from the stream.
    Read,
    /// Take a packet off the front of these bytes.
    Decode { incoming: Vec<u8> },
    /// Send a packet.
    Send { kind: ClientboundPacket, id: i32, body: String },
    /// Run a command.
    Run { command: String },
    /// End the turn, and the connection with it if it is closed.
    Finish { closed: bool },
}

/// The outcome of one step on a connection.
pub struct Handled {
    /// What is done next.
    pub action: ClientAction,
    /// What came of the login, if one came in.
    pub login: Option<LoginVerdict>,
}

/// What a connection waits for.
enum Phase {
    /// Its next turn.
    Idle,
    /// Bytes from the stream.
    Reading,
    /// A packet out of the bytes that came in.
    Decoding,
    /// The answer to a login that is accepted to be sent.
    Accepting,
    /// The answer to a login that is turned down to be sent.
    Refusing,
    /// A command to be run, for the packet with this id.
    Running { id: i32 },
    /// A line to be sent, for the packet with this id. The lines that come after it are here, the
    /// last one first.
    Sending { id: i32, pending: Vec<String> },
}

/// A connection to the remote console.
pub struct RCONClient {
    address: IpAddr,
    logged_in: bool,
    incoming: Vec<u8>,
    closed: bool,
    phase: Phase,
}

/// The texts of `lines`.
pub open spec fn texts(lines: Seq<String>) -> Seq<Seq<char>> {
    lines.map_values(|line: String| line@)
}

/// What a connection waits for, its lines as sequences of characters.
pub enum PhaseView {
    Idle,
    Reading,
    Decoding,
    Accepting,
    Refusing,
    Running { id: i32 },
    Sending { id: i32, rest: Seq<Seq<char>> },
}

/// The state of a connection.
pub struct ClientState {
    pub address: IpAddr,
    /// Whether the client has logged in.
    pub logged_in: bool,
    /// The bytes that came in and were not taken up yet.
    pub incoming: Seq<u8>,
    /// Whether the connection is to be closed.
    pub closed: bool,
    /// What the connection waits for.
    pub phase: PhaseView,
}

/// An event, its contents as sequences.
pub enum EventView {
    Handle,
    ReadFailed,
    BytesRead(Seq<u8>),
    PacketFailed { incoming: Seq<u8> },
    NoPacket { incoming: Seq<u8> },
    PacketReceived { id: i32, kind: ServerboundPacket, body: Seq<char>, incoming: Seq<u8> },
    Sent,
    SendFailed,
    CommandRun { output: Seq<Seq<char>> },
}

/// An action, its contents as sequences.
pub enum ActionView {
    Read,
    Decode { incoming: Seq<u8> },
    Send { kind: ClientboundPacket, id: i32, body: Seq<char> },
    Run { command: Seq<char> },
    Finish { closed: bool },
}

impl View for ClientEvent {
    type V = EventView;

    open spec fn view(&self) -> EventView {
        match self {
            ClientEvent::Handle => EventView::Handle,
            ClientEvent::ReadFailed => EventView::ReadFailed,
            ClientEvent::BytesRead(bytes) => EventView::BytesRead(bytes@),
            ClientEvent::PacketFailed { incoming } => EventView::PacketFailed {
                incoming: incoming@,
            },
            ClientEvent::NoPacket { incoming } => EventView::NoPacket { incoming: incoming@ },
            ClientEvent::PacketReceived { packet, incoming } => EventView::PacketReceived {
                id: packet.id,
                kind: packet.kind,
                body: packet.body@,
                incoming: incoming@,
            },
            ClientEvent::Sent => EventView::Sent,
            ClientEvent::SendFailed => EventView::SendFailed,
            ClientEvent::CommandRun { output } => EventView::CommandRun {
                output: texts(output@),
            },
        }
    }
}

impl View for ClientAction {
    type V = ActionView;

    open spec fn view(&self) -> ActionView {
        match self {
            ClientAction::Read => ActionView::Read,
            ClientAction::Decode { incoming } => ActionView::Decode { incoming: incoming@ },
            ClientAction::Send { kind, id, body } => ActionView::Send {
                kind: *kind,
                id: *id,
                body: body@,
            },
            ClientAction::Run { command } => ActionView::Run { command: command@ },
            ClientAction::Finish { closed } => ActionView::Finish { closed: *closed },
        }
    }
}

impl View for RCONClient {
    type V = ClientState;

    closed spec fn view(&self) -> ClientState {
        ClientState {
            address: self.address,
            logged_in: self.logged_in,
            incoming: self.incoming@,
            closed: self.closed,
            phase: match self.phase {
                Phase::Idle => PhaseView::Idle,
                Phase::Reading => PhaseView::Reading,
                Phase::Decoding => PhaseView::Decoding,
                Phase::Accepting => PhaseView::Accepting,
                Phase::Refusing => PhaseView::Refusing,
                Phase::Running { id } => PhaseView::Running { id },
                Phase::Sending { id, pending } => PhaseView::Sending {
                    id,
                    rest: texts(pending@.reverse()),
                },
            },
        }
    }
}

impl ClientState {
    /// A connection from `address` that has just come in.
    pub open spec fn fresh(address: IpAddr) -> Self {
        ClientState {
            address,
            logged_in: false,
            incoming: Seq::empty(),
            closed: false,
            phase: PhaseView::Idle,
        }
    }

    /// Whether the connection waits for `event`.
    pub open spec fn awaits(self, event: EventView) -> bool {
        match self.phase {
            PhaseView::Idle => event is Handle,
            PhaseView::Reading => event is ReadFailed || event is BytesRead,
            PhaseView::Decoding => event is PacketFailed || event is NoPacket
                || event is PacketReceived,
            PhaseView::Running { .. } => event is CommandRun,
            PhaseView::Accepting | PhaseView::Refusing | PhaseView::Sending { .. } => event is Sent
                || event is SendFailed,
        }
    }

    /// The connection with its turn over, and the action that ends it.
    pub open spec fn finished(self, closed: bool) -> (Self, ActionView) {
        (
            ClientState { closed, phase: PhaseView::Idle, ..self },
            ActionView::Finish { closed },
        )
    }

    /// The connection as it sends the lines of `rest`, one after the other.
    pub open spec fn sending(self, id: i32, rest: Seq<Seq<char>>) -> (Self, ActionView) {
        if rest.len() == 0 {
            self.finished(self.closed)
        } else {
            (
                ClientState { phase: PhaseView::Sending { id, rest: rest.skip(1) }, ..self },
                ActionView::Send { kind: ClientboundPacket::Output, id, body: rest[0] },
            )
        }
    }

    /// The connection after a packet came in.
    ///
    /// The answer to a login has the id of its packet if the login is accepted, and else -1. A
    /// command is run if the client has logged in, and else passed over.
    pub open spec fn polled(
        self,
        id: i32,
        kind: ServerboundPacket,
        body: Seq<char>,
        verdict: LoginVerdict,
    ) -> (Self, ActionView) {
        match kind {
            ServerboundPacket::Auth => if verdict == LoginVerdict::Accepted {
                (
                    ClientState { phase: PhaseView::Accepting, ..self },
                    ActionView::Send {
                        kind: ClientboundPacket::AuthResponse,
                        id,
                        body: Seq::empty(),
                    },
                )
            } else {
                (
                    ClientState { phase: PhaseView::Refusing, ..self },
                    ActionView::Send {
                        kind: ClientboundPacket::AuthResponse,
                        id: REFUSED_ID,
                        body: Seq::empty(),
                    },
                )
            },
            ServerboundPacket::ExecCommand => if self.logged_in {
                (
                    ClientState { phase: PhaseView::Running { id }, ..self },
                    ActionView::Run { command: body },
                )
            } else {
                self.finished(self.closed)
            },
        }
    }

    /// The connection after `event`, and what is done next, where a login has the given verdict.
    pub open spec fn after(self, event: EventView, verdict: LoginVerdict) -> (Self, ActionView) {
        match event {
            EventView::Handle => if self.closed {
                self.finished(true)
            } else {
                (ClientState { phase: PhaseView::Reading, ..self }, ActionView::Read)
            },
            EventView::ReadFailed => (
                ClientState { phase: PhaseView::Idle, ..self },
                ActionView::Finish { closed: true },
            ),
            EventView::BytesRead(bytes) => if bytes.len() == 0 {
                (
                    ClientState { phase: PhaseView::Idle, ..self },
                    ActionView::Finish { closed: true },
                )
            } else {
                (
                    ClientState { phase: PhaseView::Decoding, incoming: Seq::empty(), ..self },
                    ActionView::Decode { incoming: self.incoming + bytes },
                )
            },
            EventView::PacketFailed { incoming } => ClientState { incoming, ..self }.finished(true),
            EventView::NoPacket { incoming } => ClientState { incoming, ..self }.finished(
                self.closed,
            ),
            EventView::PacketReceived { id, kind, body, incoming } => ClientState {
                incoming,
                ..self
            }.polled(id, kind, body, verdict),
            EventView::Sent => match self.phase {
                PhaseView::Accepting => ClientState { logged_in: true, ..self }.finished(
                    self.closed,
                ),
                PhaseView::Sending { id, rest } => self.sending(id, rest),
                _ => self.finished(true),
            },
            EventView::SendFailed => self.finished(true),
            EventView::CommandRun { output } => match self.phase {
                PhaseView::Running { id } => self.sending(id, output),
                _ => self.finished(self.closed),
            },
        }
    }
}

/// The password of the login that `event` brings, if it brings one.
pub open spec fn login_attempt(event: EventView) -> Option<Seq<char>> {
    match event {
        EventView::PacketReceived { kind: ServerboundPacket::Auth, body, .. } => Some(body),
        _ => None,
    }
}

impl RCONClient {
    /// A connection from `address` that has just come in.
    pub fn new(address: IpAddr) -> (client: Self)
        ensures
            client@ == ClientState::fresh(address),
    {
        RCONClient {
            address,
            logged_in: false,
            incoming: Vec::new(),
            closed: false,
            phase: Phase::Idle,
        }
    }

    /// Ends the turn.
    fn finish(&mut self, closed: bool) -> (action: ClientAction)
        ensures
            (final(self)@, action@) == old(self)@.finished(closed),
    {
        self.closed = closed;
        self.phase = Phase::Idle;
        ClientAction::Finish { closed }
    }

    /// Adds bytes that were read to those that came in before.
    fn read_bytes(&mut self, bytes: Vec<u8>) -> (action: ClientAction)
        ensures
            (final(self)@, action@) == old(self)@.after(
                EventView::BytesRead(bytes@),
                LoginVerdict::Blocked,
            ),
    {
        if bytes.len() == 0 {
            self.phase = Phase::Idle;
            return ClientAction::Finish { closed: true };
        }
        let mut incoming: Vec<u8> = Vec::new();
        std::mem::swap(&mut self.incoming, &mut incoming);
        let mut bytes = bytes;
        incoming.append(&mut bytes);
        self.phase = Phase::Decoding;
        ClientAction::Decode { incoming }
    }

    /// Sends the next line, which is the last of `pending`, if there is one.
    fn send_line(&mut self, id: i32, pending: Vec<String>) -> (action: ClientAction)
        ensures
            (final(self)@, action@) == old(self)@.sending(id, texts(pending@.reverse())),
    {
        let ghost before = pending@;
        let mut pending = pending;
        match pending.pop() {
            None => self.finish(self.closed),
            Some(body) => {
                assert(texts(before.reverse()).skip(1) =~= texts(pending@.reverse()));
                self.phase = Phase::Sending { id, pending };
                ClientAction::Send { kind: ClientboundPacket::Output, id, body }
            },
        }
    }

    /// Takes up a packet.
    fn poll(&mut self, packet: Packet, verdict: LoginVerdict) -> (action: ClientAction)
        ensures
            (final(self)@, action@) == old(self)@.polled(
                packet.id,
                packet.kind,
                packet.body@,
                verdict,
            ),
    {
        match packet.kind {
            ServerboundPacket::Auth => {
                let kind = ClientboundPacket::AuthResponse;
                if verdict == LoginVerdict::Accepted {
                    self.phase = Phase::Accepting;
                    ClientAction::Send { kind, id: packet.id, body: String::new() }
                } else {
                    self.phase = Phase::Refusing;
                    ClientAction::Send { kind, id: REFUSED_ID, body: String::new() }
                }
            },
            ServerboundPacket::ExecCommand => {
                if self.logged_in {
                    self.phase = Phase::Running { id: packet.id };
                    ClientAction::Run { command: packet.body }
                } else {
                    self.finish(self.closed)
                }
            },
        }
    }

    /// Takes one step, where a login has the given verdict.
    pub fn step(&mut self, event: ClientEvent, verdict: LoginVerdict) -> (action: ClientAction)
        requires
            old(self)@.awaits(event@),
        ensures
            (final(self)@, action@) == old(self)@.after(event@, verdict),
    {
        match event {
            ClientEvent::Handle => {
                if self.closed {
                    return self.finish(true);
                }
                self.phase = Phase::Reading;
                ClientAction::Read
            },
            ClientEvent::ReadFailed => {
                self.phase = Phase::Idle;
                ClientAction::Finish { closed: true }
            },
            ClientEvent::BytesRead(bytes) => self.read_bytes(bytes),
            ClientEvent::PacketFailed { incoming } => {
                self.incoming = incoming;
                self.finish(true)
            },
            ClientEvent::NoPacket { incoming } => {
                self.incoming = incoming;
                self.finish(self.closed)
            },
            ClientEvent::PacketReceived { packet, incoming } => {
                self.incoming = incoming;
                self.poll(packet, verdict)
            },
            ClientEvent::Sent => self.sent(),
            ClientEvent::SendFailed => self.finish(true),
            ClientEvent::CommandRun { output } => {
                match self.phase {
                    Phase::Running { id } => {
                        let ghost lines = output@;
                        let pending = reversed(output);
                        assert(pending@.reverse() =~= lines);
                        self.send_line(id, pending)
                    },
                    _ => self.finish(self.closed),
                }
            },
        }
    }

    /// Goes on after a packet was sent.
    fn sent(&mut self) -> (action: ClientAction)
        ensures
            (final(self)@, action@) == old(self)@.after(EventView::Sent, LoginVerdict::Blocked),
    {
        let mut phase = Phase::Idle;
        std::mem::swap(&mut self.phase, &mut phase);
        match phase {
            Phase::Accepting => {
                self.logged_in = true;
                self.finish(self.closed)
            },
            Phase::Sending { id, pending } => self.send_line(id, pending),
            _ => self.finish(true),
        }
    }

    /// Takes one step, with `password` for the right one. Where a login comes in, the limiter is
    /// asked whether the address of the client is blocked, and is told of a wrong password.
    ///
    /// The action `Finish` tells whether the connection is closed.
    pub fn handle(
        &mut self,
        event: ClientEvent,
        password: &str,
        rate_limiter: &mut RateLimiter,
    ) -> (handled: Handled)
        requires
            old(self)@.awaits(event@),
            login_attempt(event@) is Some ==> old(rate_limiter)@.count(old(self)@.address)
                < u32::MAX,
        ensures
            match login_attempt(event@) {
                None => {
                    &&& handled.login is None
                    &&& (final(self)@, handled.action@) == old(self)@.after(
                        event@,
                        LoginVerdict::Blocked,
                    )
                    &&& final(rate_limiter)@ == old(rate_limiter)@
                },
                Some(provided) => exists|checked: u128|
                    #![trigger old(rate_limiter)@.is_blocked(old(self)@.address, checked as nat)]
                    {
                        let verdict = crate::rcon::login_verdict(
                            old(rate_limiter)@.is_blocked(old(self)@.address, checked as nat),
                            password@,
                            provided,
                        );
                        &&& crate::clock::can_read(old(rate_limiter).started(), checked)
                        &&& handled.login == Some(verdict)
                        &&& (final(self)@, handled.action@) == old(self)@.after(event@, verdict)
                        &&& is_told(
                            old(rate_limiter).started(),
                            old(rate_limiter)@,
                            old(self)@.address,
                            verdict,
                            final(rate_limiter)@,
                        )
                    },
            },
            final(rate_limiter).started() == old(rate_limiter).started(),
    {
        let mut login: Option<LoginVerdict> = None;
        if let ClientEvent::PacketReceived { packet, .. } = &event {
            if packet.kind == ServerboundPacket::Auth {
                let blocked = rate_limiter.is_blocked(&self.address);
                let verdict = judge_login(blocked, password, packet.body.as_str());
                if verdict == LoginVerdict::WrongPassword {
                    rate_limiter.record(&self.address);
                }
                login = Some(verdict);
            }
        }
        let verdict = match login {
            Some(verdict) => verdict,
            None => LoginVerdict::Blocked,
        };
        let action = self.step(event, verdict);
        Handled { action, login }
    }
}

/// Whether `after` is what the limiter `before`, whose clock was started at `started`, knows once it
/// is told of a login from `address`: a request more if the password was wrong, and nothing else.
pub open spec fn is_told(
    started: Instant,
    before: crate::rate_limiter::LimiterState,
    address: IpAddr,
    verdict: LoginVerdict,
    after: crate::rate_limiter::LimiterState,
) -> bool {
    if verdict == LoginVerdict::WrongPassword {
        exists|now: u128, block_start: u128|
            {
                &&& crate::clock::can_read(started, now)
                &&& crate::clock::can_read(started, block_start)
                &&& after == #[trigger] before.after_request(
                    address,
                    now as nat,
                    block_start as nat,
                )
            }
    } else {
        after == before
    }
}

/// `lines` with the last one first.
fn reversed(lines: Vec<String>) -> (result: Vec<String>)
    ensures
        result@ == lines@.reverse(),
{
    let ghost all = lines@;
    let mut lines = lines;
    let mut result: Vec<String> = Vec::new();
    while lines.len() > 0
        invariant
            result@ + lines@.reverse() == all.reverse(),
        decreases lines@.len(),
    {
        let ghost rest = lines@;
        if let Some(line) = lines.pop() {
            result.push(line);
            assert(rest.reverse() =~= seq![line] + lines@.reverse());
        }
    }
    assert(result@ =~= all.reverse());
    result
}

} // verus!
