//! The remote console: which connections are served, and what happens on one.
//!
//! Both are machines that take events and give actions. Whoever owns the sockets performs each
//! action and hands back the event that it brings about.

use std::time::Instant;
use vstd::prelude::*;
use vstd::string::*;

use crate::ip::IpAddr;
use crate::outside::constant_time_eq;
use crate::rate_limiter::RateLimiter;

verus! {

/// Failed logins of an address within a window at which it is blocked.
pub const RCON_MAX_FAILED_ATTEMPTS: u32 = 5;

/// Length of a window of failed logins: five minutes.
pub const RCON_WINDOW_SECS: u64 = 300;

/// How long an address stays blocked: fifteen minutes.
pub const RCON_BLOCK_SECS: u64 = 900;

/// What happens to the server.
#[derive(Clone, Copy, Debug, PartialEq, Eq, Structural)]
pub enum ServerEvent {
    /// It can turn to the next connection, unless it should stop.
    Ready { should_stop: bool },
    /// It is told to stop while it waits for a connection.
    Interrupted,
    /// A connection could not be taken up.
    AcceptFailed,
    /// A connection came in from this address.
    Accepted(IpAddr),
    /// The client of a connection that was served has ended.
    ClientEnded,
}

/// What the server does next.
#[derive(Clone, Copy, Debug, PartialEq, Eq, Structural)]
pub enum ServerAction {
    /// Wait for a connection.
    Accept,
    /// Drop the connection, because its address is blocked.
    RejectBlocked,
    /// Drop the connection, because there are too many.
    RejectFull,
    /// Serve the connection with a new client, and turn to the next one.
    Serve,
    /// Turn to the next connection.
    Continue,
    /// End without an error.
    Stop,
    /// End with the error of the connection.
    Fail,
}

/// The server of the remote console.
pub struct RCONServer {
    max_connections: u32,
    connections: u32,
}

impl RCONServer {
    /// How many connections may be served at a time, where zero stands for no limit.
    pub closed spec fn limit(&self) -> nat {
        self.max_connections as nat
    }

    /// How many connections are open: served, with a client that has not ended.
    pub closed spec fn open_connections(&self) -> nat {
        self.connections as nat
    }

    /// A server without connections.
    pub fn new(max_connections: u32) -> (server: Self)
        ensures
            server.limit() == max_connections,
            server.open_connections() == 0,
    {
        RCONServer { max_connections, connections: 0 }
    }

    /// The rate limiter for logins.
    pub fn rate_limiter() -> (limiter: RateLimiter)
        ensures
            limiter@ == crate::rate_limiter::LimiterState::fresh(
                RCON_MAX_FAILED_ATTEMPTS,
                RCON_WINDOW_SECS,
                RCON_BLOCK_SECS,
            ),
            call_ensures(Instant::now, (), limiter.started()),
    {
        RateLimiter::new(RCON_MAX_FAILED_ATTEMPTS, RCON_WINDOW_SECS, RCON_BLOCK_SECS)
    }

    /// How many connections are open.
    pub fn count_connections(&self) -> (count: u32)
        ensures
            count == self.open_connections(),
    {
        self.connections
    }

    /// Whether the server can take `event`: a client can end only where one is open, and without
    /// a limit there are at most as many as can be counted.
    pub open spec fn can_take(&self, event: ServerEvent) -> bool {
        match event {
            ServerEvent::Accepted(_) => self.limit() != 0 || self.open_connections() < u32::MAX,
            ServerEvent::ClientEnded => self.open_connections() > 0,
            _ => true,
        }
    }

    /// Decides on a connection: one from a blocked address is dropped, and so is one over the
    /// limit.
    pub fn decide(&mut self, blocked: bool) -> (action: ServerAction)
        requires
            blocked || old(self).limit() != 0 || old(self).open_connections() < u32::MAX,
        ensures
            action == admission(blocked, old(self).open_connections(), old(self).limit()),
            final(self).open_connections() == old(self).open_connections() + (if action
                == ServerAction::Serve {
                1int
            } else {
                0
            }),
            final(self).limit() == old(self).limit(),
    {
        if blocked {
            return ServerAction::RejectBlocked;
        }
        if self.max_connections != 0 && self.connections >= self.max_connections {
            return ServerAction::RejectFull;
        }
        self.connections = self.connections + 1;
        ServerAction::Serve
    }

    /// Takes one step. Whether the address of a connection is blocked is looked up at a reading of
    /// the limiter's clock.
    pub fn run(&mut self, event: ServerEvent, rate_limiter: &RateLimiter) -> (action: ServerAction)
        requires
            old(self).can_take(event),
        ensures
            match event {
                ServerEvent::Accepted(ip) => exists|now: u128|
                    crate::clock::can_read(rate_limiter.started(), now) && action == server_action(
                        event,
                        #[trigger] rate_limiter@.is_blocked(ip, now as nat),
                        old(self).open_connections(),
                        old(self).limit(),
                    ),
                _ => action == server_action(
                    event,
                    false,
                    old(self).open_connections(),
                    old(self).limit(),
                ),
            },
            final(self).open_connections() == connections_after(
                old(self).open_connections(),
                event,
                action,
            ),
            final(self).limit() == old(self).limit(),
    {
        match event {
            ServerEvent::Ready { should_stop } => if should_stop {
                ServerAction::Stop
            } else {
                ServerAction::Accept
            },
            ServerEvent::Interrupted => ServerAction::Stop,
            ServerEvent::AcceptFailed => ServerAction::Fail,
            ServerEvent::Accepted(ip) => {
                let blocked = rate_limiter.is_blocked(&ip);
                self.decide(blocked)
            },
            ServerEvent::ClientEnded => {
                self.connections = self.connections - 1;
                ServerAction::Continue
            },
        }
    }
}

/// What is decided on a connection, where `connections` are open and `limit` is the most that may
/// be, or zero for no limit.
pub open spec fn admission(blocked: bool, connections: nat, limit: nat) -> ServerAction {
    if blocked {
        ServerAction::RejectBlocked
    } else if limit != 0 && connections >= limit {
        ServerAction::RejectFull
    } else {
        ServerAction::Serve
    }
}

/// What the server does on `event`, where `blocked` says whether the address of a connection that
/// came in is blocked, `connections` are open and `limit` is the most that may be, or zero for no
/// limit.
pub open spec fn server_action(
    event: ServerEvent,
    blocked: bool,
    connections: nat,
    limit: nat,
) -> ServerAction {
    match event {
        ServerEvent::Ready { should_stop } => if should_stop {
            ServerAction::Stop
        } else {
            ServerAction::Accept
        },
        ServerEvent::Interrupted => ServerAction::Stop,
        ServerEvent::AcceptFailed => ServerAction::Fail,
        ServerEvent::Accepted(_) => admission(blocked, connections, limit),
        ServerEvent::ClientEnded => ServerAction::Continue,
    }
}

/// The open connections after an event that brought about `action`, where `connections` were open
/// before: one more for a connection that is served, and one less for a client that has ended.
pub open spec fn connections_after(
    connections: nat,
    event: ServerEvent,
    action: ServerAction,
) -> int {
    if action == ServerAction::Serve {
        connections as int + 1
    } else if event == ServerEvent::ClientEnded {
        connections - 1
    } else {
        connections as int
    }
}

/// The packets that a client of the console sends.
#[derive(Clone, Copy, Debug, PartialEq, Eq, Structural)]
pub enum ServerboundPacket {
    /// A login, with the password as its body.
    Auth,
    /// A command to run, which is its body.
    ExecCommand,
}

/// The packets that a client of the console gets.
#[derive(Clone, Copy, Debug, PartialEq, Eq, Structural)]
pub enum ClientboundPacket {
    /// The answer to a login.
    AuthResponse,
    /// A line that a command put out.
    Output,
}

/// A packet that a client of the console sent.
#[derive(Debug)]
pub struct Packet {
    pub id: i32,
    pub kind: ServerboundPacket,
    pub body: String,
}

/// The id in the answer to a login that is turned down.
pub const REFUSED_ID: i32 = -1;

/// What comes of a login.
#[derive(Clone, Copy, Debug, PartialEq, Eq, Structural)]
pub enum LoginVerdict {
    /// The address of the client is blocked.
    Blocked,
    /// The password is right.
    Accepted,
    /// The password is wrong.
    WrongPassword,
}

/// What comes of a login with the password `provided`, where `password` is the right one and
/// `blocked` says whether the address is blocked.
pub open spec fn login_verdict(
    blocked: bool,
    password: Seq<char>,
    provided: Seq<char>,
) -> LoginVerdict {
    if blocked {
        LoginVerdict::Blocked
    } else if password == provided {
        LoginVerdict::Accepted
    } else {
        LoginVerdict::WrongPassword
    }
}

/// Decides on a login. Passwords are compared in a time that does not depend on what they hold.
pub fn judge_login(blocked: bool, password: &str, provided: &str) -> (verdict: LoginVerdict)
    ensures
        verdict == login_verdict(blocked, password@, provided@),
{
    if blocked {
        return LoginVerdict::Blocked;
    }
    let password_bytes = password.as_bytes();
    let provided_bytes = provided.as_bytes();
    proof {
        vstd::utf8::encode_utf8_decode_utf8(password@);
        vstd::utf8::encode_utf8_decode_utf8(provided@);
    }
    let password_matches = if password_bytes.len() == provided_bytes.len() {
        constant_time_eq(password_bytes, provided_bytes)
    } else {
        // Compare all the same, so that a wrong length costs as much time as a wrong password.
        let _ = constant_time_eq(password_bytes, password_bytes);
        false
    };
    if password_matches {
        LoginVerdict::Accepted
    } else {
        LoginVerdict::WrongPassword
    }
}

} // verus!
