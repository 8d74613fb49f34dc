//! What each step of the remote console does, for every state and every event.

use vstd::prelude::*;

use crate::ip::IpAddr;
use crate::rate_limiter::RateLimiter;
use crate::rcon::{
    judge_login, ClientboundPacket, LoginVerdict, Packet, RCONServer, ServerAction, ServerEvent,
    ServerboundPacket,
};
use crate::rcon_client::{
    ActionView, ClientAction, ClientEvent, ClientState, EventView, Handled, PhaseView, RCONClient,
};

verus! {

/// Whether two states differ in nothing but what the connection waits for.
pub open spec fn differ_in_phase_only(left: ClientState, right: ClientState) -> bool {
    &&& left.address == right.address
    &&& left.logged_in == right.logged_in
    &&& left.incoming == right.incoming
    &&& left.closed == right.closed
}

/// The command of a client that has logged in is run as it was sent, character by character, and
/// its output is waited for under the id of its packet. Nothing else changes but the bytes that
/// are left.
pub proof fn law_command_is_run_as_it_was_sent(
    state: ClientState,
    id: i32,
    body: Seq<char>,
    incoming: Seq<u8>,
    verdict: LoginVerdict,
)
    requires
        state.phase is Decoding,
        state.logged_in,
    ensures
        ({
            let kind = ServerboundPacket::ExecCommand;
            let (after, action) = state.after(
                EventView::PacketReceived { id, kind, body, incoming },
                verdict,
            );
            &&& action is Run
            &&& action->command.len() == body.len()
            &&& forall|i: int| 0 <= i < body.len() ==> action->command[i] == body[i]
            &&& after.phase == (PhaseView::Running { id })
            &&& after.incoming == incoming
            &&& after.logged_in
            &&& after.closed == state.closed
            &&& after.address == state.address
        }),
{
}

/// The command of a client that has not logged in is passed over: nothing is run or sent, and the
/// turn is over.
pub proof fn law_command_without_login_is_passed_over(
    state: ClientState,
    id: i32,
    body: Seq<char>,
    incoming: Seq<u8>,
    verdict: LoginVerdict,
)
    requires
        state.phase is Decoding,
        !state.logged_in,
    ensures
        ({
            let kind = ServerboundPacket::ExecCommand;
            let (after, action) = state.after(
                EventView::PacketReceived { id, kind, body, incoming },
                verdict,
            );
            &&& action == ActionView::Finish { closed: state.closed }
            &&& after.phase == PhaseView::Idle
            &&& after.incoming == incoming
            &&& !after.logged_in
            &&& after.closed == state.closed
            &&& after.address == state.address
        }),
{
}

/// A login is answered at once, with an empty body and with its own id if it is accepted and -1 if
/// it is not; who has logged in and what is closed stay as they are until the answer is sent.
pub proof fn law_login_is_answered(
    state: ClientState,
    id: i32,
    body: Seq<char>,
    incoming: Seq<u8>,
    verdict: LoginVerdict,
)
    ensures
        ({
            let kind = ServerboundPacket::Auth;
            let (after, action) = state.after(
                EventView::PacketReceived { id, kind, body, incoming },
                verdict,
            );
            &&& action is Send
            &&& action->kind == ClientboundPacket::AuthResponse
            &&& action->id == (if verdict == LoginVerdict::Accepted {
                id as int
            } else {
                -1
            })
            &&& action->body.len() == 0
            &&& after.incoming == incoming
            &&& after.logged_in == state.logged_in
            &&& after.closed == state.closed
            &&& after.address == state.address
        }),
{
}

/// The turn of an open connection begins by reading, and that of a closed one is over at once.
pub proof fn law_turn_begins_by_reading(state: ClientState, verdict: LoginVerdict)
    ensures
        ({
            let (after, action) = state.after(EventView::Handle, verdict);
            &&& !state.closed ==> action == ActionView::Read && after.phase == PhaseView::Reading
            &&& state.closed ==> action == (ActionView::Finish { closed: true }) && after.phase
                == PhaseView::Idle
            &&& differ_in_phase_only(state, after)
        }),
{
}

/// Bytes that are read come after those that were left before, and all of them are looked at for a
/// packet.
pub proof fn law_bytes_are_gathered_in_order(
    state: ClientState,
    bytes: Seq<u8>,
    verdict: LoginVerdict,
)
    requires
        bytes.len() > 0,
    ensures
        ({
            let (after, action) = state.after(EventView::BytesRead(bytes), verdict);
            &&& action is Decode
            &&& action->incoming.len() == state.incoming.len() + bytes.len()
            &&& forall|i: int|
                0 <= i < state.incoming.len() ==> action->incoming[i] == state.incoming[i]
            &&& forall|i: int|
                0 <= i < bytes.len() ==> action->incoming[state.incoming.len() + i] == bytes[i]
            &&& after.phase == PhaseView::Decoding
            &&& after.logged_in == state.logged_in
            &&& after.closed == state.closed
            &&& after.address == state.address
        }),
{
}

/// A stream that ends, or that cannot be read, ends the connection, with nothing more sent.
pub proof fn law_end_of_stream_ends_the_connection(state: ClientState, verdict: LoginVerdict)
    ensures
        state.after(EventView::BytesRead(Seq::empty()), verdict).1 == (ActionView::Finish {
            closed: true,
        }),
        state.after(EventView::ReadFailed, verdict).1 == (ActionView::Finish { closed: true }),
        differ_in_phase_only(state, state.after(EventView::BytesRead(Seq::empty()), verdict).0),
        differ_in_phase_only(state, state.after(EventView::ReadFailed, verdict).0),
        state.after(EventView::BytesRead(Seq::empty()), verdict).0.phase == PhaseView::Idle,
        state.after(EventView::ReadFailed, verdict).0.phase == PhaseView::Idle,
{
}

/// Bytes that do not make up a packet yet are kept for the next turn, and put before the bytes that
/// are read then.
pub proof fn law_bytes_wait_for_the_rest_of_their_packet(
    state: ClientState,
    left: Seq<u8>,
    more: Seq<u8>,
    verdict: LoginVerdict,
)
    requires
        !state.closed,
        more.len() > 0,
    ensures
        ({
            let (waiting, end) = state.after(EventView::NoPacket { incoming: left }, verdict);
            let (reading, read) = waiting.after(EventView::Handle, verdict);
            let (_, decode) = reading.after(EventView::BytesRead(more), verdict);
            &&& end == ActionView::Finish { closed: false }
            &&& waiting.phase == PhaseView::Idle
            &&& waiting.incoming == left
            &&& waiting.logged_in == state.logged_in
            &&& waiting.address == state.address
            &&& read == ActionView::Read
            &&& decode == ActionView::Decode { incoming: left + more }
        }),
{
}

/// Bytes that are not those of a packet close the connection.
pub proof fn law_broken_packet_closes(state: ClientState, left: Seq<u8>, verdict: LoginVerdict)
    ensures
        ({
            let (after, action) = state.after(EventView::PacketFailed { incoming: left }, verdict);
            &&& action == ActionView::Finish { closed: true }
            &&& after.closed
            &&& after.phase == PhaseView::Idle
            &&& after.logged_in == state.logged_in
            &&& after.incoming == left
            &&& after.address == state.address
        }),
{
}

/// A packet that cannot be sent closes the connection, and logs nobody in.
pub proof fn law_failed_send_closes(state: ClientState, verdict: LoginVerdict)
    ensures
        ({
            let (after, action) = state.after(EventView::SendFailed, verdict);
            &&& action == ActionView::Finish { closed: true }
            &&& after.closed
            &&& after.phase == PhaseView::Idle
            &&& after.logged_in == state.logged_in
            &&& after.incoming == state.incoming
            &&& after.address == state.address
        }),
{
}

/// A packet that was sent is followed by the next line where lines are left, and by the end of the
/// turn where none is. The answer to an accepted login logs the client in, and that to any other
/// closes the connection.
pub proof fn law_sent_packet_is_followed_up(state: ClientState, verdict: LoginVerdict)
    requires
        state.awaits(EventView::Sent),
    ensures
        ({
            let (after, action) = state.after(EventView::Sent, verdict);
            &&& state.phase is Accepting ==> after.logged_in && after.closed == state.closed
                && action == (ActionView::Finish { closed: state.closed })
            &&& state.phase is Refusing ==> after.logged_in == state.logged_in && after.closed
                && action == (ActionView::Finish { closed: true })
            &&& state.phase is Sending ==> {
                let rest = state.phase->rest;
                let id = state.phase->Sending_id;
                &&& after.logged_in == state.logged_in
                &&& after.closed == state.closed
                &&& rest.len() == 0 ==> action == (ActionView::Finish { closed: state.closed })
                &&& rest.len() > 0 ==> action == (ActionView::Send {
                    kind: ClientboundPacket::Output,
                    id,
                    body: rest[0],
                }) && after.phase == (PhaseView::Sending { id, rest: rest.skip(1) })
            }
            &&& action is Finish ==> after.phase == PhaseView::Idle
            &&& after.incoming == state.incoming
            &&& after.address == state.address
        }),
{
}

/// The output of a command is sent from its first line on, under the id of the command; a command
/// without output ends the turn. Nothing else changes.
pub proof fn law_output_begins_with_its_first_line(
    state: ClientState,
    id: i32,
    output: Seq<Seq<char>>,
    verdict: LoginVerdict,
)
    requires
        state.phase == (PhaseView::Running { id }),
    ensures
        ({
            let (after, action) = state.after(EventView::CommandRun { output }, verdict);
            &&& output.len() == 0 ==> action == (ActionView::Finish { closed: state.closed })
                && after.phase == PhaseView::Idle
            &&& output.len() > 0 ==> action == (ActionView::Send {
                kind: ClientboundPacket::Output,
                id,
                body: output[0],
            }) && after.phase == (PhaseView::Sending { id, rest: output.skip(1) })
            &&& differ_in_phase_only(state, after)
        }),
{
}

/// After each action the connection waits for what that action can bring about, and for nothing
/// else.
pub proof fn law_action_brings_what_is_waited_for(
    state: ClientState,
    event: EventView,
    verdict: LoginVerdict,
    next: EventView,
)
    requires
        state.awaits(event),
    ensures
        ({
            let (after, action) = state.after(event, verdict);
            after.awaits(next) <==> match action {
                ActionView::Read => next is ReadFailed || next is BytesRead,
                ActionView::Decode { .. } => next is PacketFailed || next is NoPacket
                    || next is PacketReceived,
                ActionView::Send { .. } => next is Sent || next is SendFailed,
                ActionView::Run { .. } => next is CommandRun,
                ActionView::Finish { .. } => next is Handle,
            }
        }),
{
}

/// A new connection has not logged in, is open, has read nothing, and waits for its turn.
pub proof fn law_new_connection_starts_from_nothing(address: IpAddr, event: EventView)
    ensures
        ({
            let state = ClientState::fresh(address);
            &&& state.address == address
            &&& !state.logged_in
            &&& !state.closed
            &&& state.incoming.len() == 0
            &&& state.awaits(event) <==> event is Handle
        }),
{
}

/// What an event or an action carries is all there in its view.
pub proof fn law_views_leave_nothing_out(
    bytes: Vec<u8>,
    packet: Packet,
    output: Vec<String>,
    kind: ClientboundPacket,
    id: i32,
    text: String,
    closed: bool,
)
    ensures
        ClientEvent::Handle@ == EventView::Handle,
        ClientEvent::ReadFailed@ == EventView::ReadFailed,
        ClientEvent::Sent@ == EventView::Sent,
        ClientEvent::SendFailed@ == EventView::SendFailed,
        ClientEvent::BytesRead(bytes)@ == EventView::BytesRead(bytes@),
        (ClientEvent::PacketFailed { incoming: bytes })@ == (EventView::PacketFailed {
            incoming: bytes@,
        }),
        (ClientEvent::NoPacket { incoming: bytes })@ == (EventView::NoPacket { incoming: bytes@ }),
        (ClientEvent::PacketReceived { packet, incoming: bytes })@ == (EventView::PacketReceived {
            id: packet.id,
            kind: packet.kind,
            body: packet.body@,
            incoming: bytes@,
        }),
        (ClientEvent::CommandRun { output })@ is CommandRun,
        (ClientEvent::CommandRun { output })@->output.len() == output@.len(),
        forall|i: int|
            0 <= i < output@.len() ==> (#[trigger] (ClientEvent::CommandRun {
                output,
            })@->output[i]) == output@[i]@,
        ClientAction::Read@ == ActionView::Read,
        (ClientAction::Decode { incoming: bytes })@ == (ActionView::Decode { incoming: bytes@ }),
        (ClientAction::Send { kind, id, body: text })@ == (ActionView::Send {
            kind,
            id,
            body: text@,
        }),
        (ClientAction::Run { command: text })@ == (ActionView::Run { command: text@ }),
        (ClientAction::Finish { closed })@ == (ActionView::Finish { closed }),
{
}

/// A new client is a new connection from its address.
pub proof fn law_new_client_waits_for_its_turn(address: IpAddr, client: RCONClient)
    requires
        call_ensures(RCONClient::new, (address,), client),
    ensures
        client@.address == address,
        !client@.logged_in,
        !client@.closed,
        client@.incoming.len() == 0,
        client@.phase == PhaseView::Idle,
{
}

/// Handling the command of a client that has logged in gives the command back to be run, as it was
/// sent, and leaves the limiter alone; without a login it gives nothing to run or send.
pub proof fn law_handled_command_is_run(
    client: &mut RCONClient,
    packet: Packet,
    incoming: Vec<u8>,
    password: &str,
    limiter: &mut RateLimiter,
    handled: Handled,
)
    requires
        old(client)@.phase is Decoding,
        packet.kind == ServerboundPacket::ExecCommand,
        call_ensures(
            RCONClient::handle,
            (client, ClientEvent::PacketReceived { packet, incoming }, password, limiter),
            handled,
        ),
    ensures
        handled.login is None,
        old(client)@.logged_in ==> handled.action is Run && handled.action->command@
            == packet.body@ && final(client)@.phase == (PhaseView::Running { id: packet.id }),
        !old(client)@.logged_in ==> handled.action is Finish && final(client)@.phase
            == PhaseView::Idle,
        final(client)@.logged_in == old(client)@.logged_in,
        final(client)@.incoming == incoming@,
        final(client)@.closed == old(client)@.closed,
        final(client)@.address == old(client)@.address,
        final(limiter)@ == old(limiter)@,
        final(limiter).started() == old(limiter).started(),
{
}

/// Handling a login accepts it only if the password is the right one, and calls it wrong only if it
/// is not. The answer goes out with the id of the packet if it is accepted and with -1 if not, and
/// the limiter counts a request of the client's address if the password is wrong, and else nothing.
pub proof fn law_handled_login_is_judged(
    client: &mut RCONClient,
    packet: Packet,
    incoming: Vec<u8>,
    password: &str,
    limiter: &mut RateLimiter,
    handled: Handled,
)
    requires
        old(client)@.phase is Decoding,
        packet.kind == ServerboundPacket::Auth,
        old(limiter)@.count(old(client)@.address) < u32::MAX,
        call_ensures(
            RCONClient::handle,
            (client, ClientEvent::PacketReceived { packet, incoming }, password, limiter),
            handled,
        ),
    ensures
        handled.login is Some,
        handled.login->0 == LoginVerdict::Accepted ==> packet.body@ == password@,
        handled.login->0 == LoginVerdict::WrongPassword ==> packet.body@ != password@,
        handled.login->0 == LoginVerdict::Blocked ==> old(limiter)@.blocked.contains_key(
            old(client)@.address,
        ),
        !old(limiter)@.blocked.contains_key(old(client)@.address) && packet.body@ == password@
            ==> handled.login->0 == LoginVerdict::Accepted,
        !old(limiter)@.blocked.contains_key(old(client)@.address) && packet.body@ != password@
            ==> handled.login->0 == LoginVerdict::WrongPassword,
        handled.action is Send,
        handled.action->kind == ClientboundPacket::AuthResponse,
        handled.action->id == (if handled.login->0 == LoginVerdict::Accepted {
            packet.id as int
        } else {
            -1
        }),
        handled.action->body@.len() == 0,
        final(client)@.logged_in == old(client)@.logged_in,
        final(client)@.incoming == incoming@,
        final(client)@.phase is Accepting <==> handled.login->0 == LoginVerdict::Accepted,
        handled.login->0 == LoginVerdict::WrongPassword ==> {
            let before = old(limiter)@.count(old(client)@.address);
            let after = final(limiter)@.count(old(client)@.address);
            after == before + 1 || after == 1
        },
        handled.login->0 != LoginVerdict::WrongPassword ==> final(limiter)@ == old(limiter)@,
        final(limiter).started() == old(limiter).started(),
{
}

/// Handling what a command put out sends its first line, if there is one, as it is.
pub proof fn law_handled_output_is_sent(
    client: &mut RCONClient,
    output: Vec<String>,
    password: &str,
    limiter: &mut RateLimiter,
    handled: Handled,
)
    requires
        old(client)@.phase is Running,
        call_ensures(
            RCONClient::handle,
            (client, ClientEvent::CommandRun { output }, password, limiter),
            handled,
        ),
    ensures
        output@.len() == 0 ==> handled.action is Finish,
        output@.len() > 0 ==> {
            &&& handled.action is Send
            &&& handled.action->kind == ClientboundPacket::Output
            &&& handled.action->id == old(client)@.phase->Running_id
            &&& handled.action->body@ == output@[0]@
            &&& final(client)@.phase is Sending
            &&& final(client)@.phase->Sending_id == old(client)@.phase->Running_id
            &&& final(client)@.phase->rest.len() == output@.len() - 1
            &&& forall|i: int|
                0 < i < output@.len() ==> #[trigger] final(client)@.phase->rest[i - 1]
                    == output@[i]@
        },
        final(limiter)@ == old(limiter)@,
{
}

/// Handling bytes gives all that came in back to be decoded, the new ones last.
pub proof fn law_handled_bytes_are_decoded(
    client: &mut RCONClient,
    bytes: Vec<u8>,
    password: &str,
    limiter: &mut RateLimiter,
    handled: Handled,
)
    requires
        old(client)@.phase is Reading,
        call_ensures(
            RCONClient::handle,
            (client, ClientEvent::BytesRead(bytes), password, limiter),
            handled,
        ),
    ensures
        bytes@.len() > 0 ==> handled.action is Decode && handled.action->incoming@ == old(client)@.incoming + bytes@,
        bytes@.len() == 0 ==> handled.action == (ClientAction::Finish { closed: true }),
        final(limiter)@ == old(limiter)@,
{
}

/// Whether a login is turned down for a block is looked up for the client's own address, at a
/// reading of the limiter's clock; so is whether a connection is.
pub proof fn law_blocks_are_looked_up_by_address(
    client: &mut RCONClient,
    packet: Packet,
    incoming: Vec<u8>,
    password: &str,
    limiter: &mut RateLimiter,
    handled: Handled,
    server: &mut RCONServer,
    ip: IpAddr,
    action: ServerAction,
)
    requires
        old(client)@.phase is Decoding,
        packet.kind == ServerboundPacket::Auth,
        call_ensures(
            RCONClient::handle,
            (client, ClientEvent::PacketReceived { packet, incoming }, password, limiter),
            handled,
        ),
        call_ensures(RCONServer::run, (server, ServerEvent::Accepted(ip), &*old(limiter)), action),
    ensures
        exists|checked: u128|
            #![trigger old(limiter)@.is_blocked(old(client)@.address, checked as nat)]
            {
                &&& crate::clock::can_read(old(limiter).started(), checked)
                &&& handled.login == Some(LoginVerdict::Blocked) <==> old(limiter)@.is_blocked(
                    old(client)@.address,
                    checked as nat,
                )
            },
        exists|checked: u128|
            #![trigger old(limiter)@.is_blocked(ip, checked as nat)]
            {
                &&& crate::clock::can_read(old(limiter).started(), checked)
                &&& action == ServerAction::RejectBlocked <==> old(limiter)@.is_blocked(
                    ip,
                    checked as nat,
                )
            },
{
}

/// A step does what handling the same event does, where the verdict on a login is given.
pub proof fn law_step_takes_the_verdict(
    client: &mut RCONClient,
    packet: Packet,
    incoming: Vec<u8>,
    verdict: LoginVerdict,
    action: ClientAction,
)
    requires
        old(client)@.phase is Decoding,
        call_ensures(
            RCONClient::step,
            (client, ClientEvent::PacketReceived { packet, incoming }, verdict),
            action,
        ),
    ensures
        packet.kind == ServerboundPacket::ExecCommand && old(client)@.logged_in ==> action is Run
            && action->command@ == packet.body@,
        packet.kind == ServerboundPacket::ExecCommand && !old(client)@.logged_in
            ==> action is Finish,
        packet.kind == ServerboundPacket::Auth ==> action is Send && action->body@.len() == 0
            && action->kind == ClientboundPacket::AuthResponse && (action->id == packet.id
            || action->id == -1) && (verdict == LoginVerdict::Accepted ==> action->id == packet.id)
            && (verdict != LoginVerdict::Accepted ==> action->id == -1),
        final(client)@.logged_in == old(client)@.logged_in,
        final(client)@.incoming == incoming@,
{
}

/// A login is accepted if and only if the address is not blocked and the password is, character by
/// character, the right one; it is called blocked exactly where the address is.
pub proof fn law_judged_by_block_and_password(
    blocked: bool,
    password: &str,
    provided: &str,
    verdict: LoginVerdict,
)
    requires
        call_ensures(judge_login, (blocked, password, provided), verdict),
    ensures
        verdict == LoginVerdict::Blocked <==> blocked,
        verdict == LoginVerdict::Accepted <==> !blocked && password@ == provided@,
        verdict == LoginVerdict::WrongPassword <==> !blocked && password@ != provided@,
{
}

/// A connection is served if and only if its address is not blocked and there is a place for it;
/// one from a blocked address is dropped for that reason, and another one only for want of a place.
pub proof fn law_connection_is_served_if_there_is_a_place(
    blocked: bool,
    connections: nat,
    limit: nat,
)
    ensures
        ({
            let action = crate::rcon::admission(blocked, connections, limit);
            let has_place = limit == 0 || connections < limit;
            &&& action == ServerAction::Serve <==> !blocked && has_place
            &&& action == ServerAction::RejectBlocked <==> blocked
            &&& action == ServerAction::RejectFull <==> !blocked && !has_place
        }),
{
}

/// Each event of the server has its action: it waits for a connection unless it should stop, ends
/// where it is told to or a connection fails, and goes on where a client has ended.
pub proof fn law_server_acts_on_each_event(
    should_stop: bool,
    ip: IpAddr,
    blocked: bool,
    connections: nat,
    limit: nat,
)
    ensures
        crate::rcon::server_action(
            ServerEvent::Ready { should_stop },
            blocked,
            connections,
            limit,
        ) == (if should_stop {
            ServerAction::Stop
        } else {
            ServerAction::Accept
        }),
        crate::rcon::server_action(ServerEvent::Interrupted, blocked, connections, limit)
            == ServerAction::Stop,
        crate::rcon::server_action(ServerEvent::AcceptFailed, blocked, connections, limit)
            == ServerAction::Fail,
        crate::rcon::server_action(ServerEvent::ClientEnded, blocked, connections, limit)
            == ServerAction::Continue,
        crate::rcon::server_action(ServerEvent::Accepted(ip), blocked, connections, limit)
            == ServerAction::Serve <==> !blocked && (limit == 0 || connections < limit),
        crate::rcon::server_action(ServerEvent::Accepted(ip), blocked, connections, limit)
            == ServerAction::RejectBlocked <==> blocked,
        crate::rcon::server_action(ServerEvent::Accepted(ip), blocked, connections, limit)
            == ServerAction::RejectFull <==> !blocked && limit != 0 && connections >= limit,
{
}

/// The count of open connections goes up by one with each that is served, down by one with each
/// client that ends, and else stays.
pub proof fn law_server_counts_its_connections(
    server: &mut RCONServer,
    event: ServerEvent,
    limiter: RateLimiter,
    action: ServerAction,
)
    requires
        call_ensures(RCONServer::run, (server, event, &limiter), action),
    ensures
        action == ServerAction::Serve ==> final(server).open_connections() == old(server).open_connections() + 1,
        event == ServerEvent::ClientEnded ==> final(server).open_connections() == old(server).open_connections() - 1,
        action != ServerAction::Serve && event != ServerEvent::ClientEnded ==> final(server).open_connections() == old(server).open_connections(),
        final(server).limit() == old(server).limit(),
        action == ServerAction::Serve ==> event is Accepted,
{
}

/// A connection from an address that was never blocked is served if and only if there is a place
/// for it, and is dropped for want of one otherwise.
pub proof fn law_run_serves_while_there_is_a_place(
    server: &mut RCONServer,
    ip: IpAddr,
    limiter: RateLimiter,
    action: ServerAction,
)
    requires
        !limiter@.blocked.contains_key(ip),
        call_ensures(RCONServer::run, (server, ServerEvent::Accepted(ip), &limiter), action),
    ensures
        action == ServerAction::Serve <==> old(server).limit() == 0 || old(server).open_connections() < old(server).limit(),
        action != ServerAction::Serve ==> action == ServerAction::RejectFull,
{
}

/// A new server has its limit and no connections, and the console's limiter blocks an address for
/// fifteen minutes after five requests in five.
pub proof fn law_console_is_set_up(
    max_connections: u32,
    server: RCONServer,
    limiter: RateLimiter,
    count: u32,
    ip: IpAddr,
)
    requires
        call_ensures(RCONServer::new, (max_connections,), server),
        call_ensures(RCONServer::count_connections, (&server,), count),
        call_ensures(RCONServer::rate_limiter, (), limiter),
    ensures
        server.limit() == max_connections,
        server.open_connections() == 0,
        count == 0,
        limiter@.max_requests == 5,
        limiter@.window == 300_000_000_000,
        limiter@.block_duration == 900_000_000_000,
        !limiter@.requests.contains_key(ip),
        !limiter@.blocked.contains_key(ip),
{
}

/// What the server decides on a connection is what it does when the connection comes in.
pub proof fn law_decision_is_on_block_and_place(
    server: &mut RCONServer,
    blocked: bool,
    action: ServerAction,
)
    requires
        call_ensures(RCONServer::decide, (server, blocked), action),
    ensures
        action == ServerAction::RejectBlocked <==> blocked,
        action == ServerAction::Serve <==> !blocked && (old(server).limit() == 0 || old(server).open_connections() < old(server).limit()),
        action == ServerAction::RejectFull <==> !blocked && old(server).limit() != 0 && old(server).open_connections() >= old(server).limit(),
        final(server).limit() == old(server).limit(),
        final(server).open_connections() == old(server).open_connections() + (if action
            == ServerAction::Serve {
            1int
        } else {
            0
        }),
{
}

/// The login that an event brings is an `Auth` packet's, with the packet's body for a password; no
/// other event brings one.
pub proof fn law_logins_are_auth_packets(
    id: i32,
    kind: ServerboundPacket,
    body: Seq<char>,
    incoming: Seq<u8>,
    event: EventView,
)
    ensures
        crate::rcon_client::login_attempt(
            EventView::PacketReceived { id, kind, body, incoming },
        ) == (if kind == ServerboundPacket::Auth {
            Some(body)
        } else {
            None
        }),
        event !is PacketReceived ==> crate::rcon_client::login_attempt(event) is None,
{
}

/// The limiter is told of a login by one request more if the password was wrong, and by nothing
/// otherwise.
pub proof fn law_limiter_is_told_of_wrong_passwords_only(
    started: std::time::Instant,
    before: crate::rate_limiter::LimiterState,
    address: IpAddr,
    verdict: LoginVerdict,
    after: crate::rate_limiter::LimiterState,
    other: IpAddr,
)
    requires
        crate::rcon_client::is_told(started, before, address, verdict, after),
        before.count(address) < u32::MAX,
    ensures
        verdict != LoginVerdict::WrongPassword ==> after == before,
        verdict == LoginVerdict::WrongPassword ==> {
            &&& after.requests.contains_key(address)
            &&& after.count(address) == before.count(address) + 1 || after.count(address) == 1
            &&& other != address ==> after.count(other) == before.count(other)
        },
{
}

} // verus!
