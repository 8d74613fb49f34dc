//! What holds of the remote console over any number of steps.

use std::time::Instant;
use vstd::prelude::*;

use crate::ip::IpAddr;
use crate::rate_limiter::LimiterState;
use crate::rate_limiter_laws::Request;
use crate::rcon::{
    ClientboundPacket, LoginVerdict, ServerAction, ServerEvent, ServerboundPacket, RCON_BLOCK_SECS,
    RCON_MAX_FAILED_ATTEMPTS, RCON_WINDOW_SECS, REFUSED_ID,
};
use crate::rcon_client::{ActionView, ClientState, EventView, PhaseView};

verus! {

/// A step of a connection: an event, and the verdict on the login that it may bring.
pub struct Step {
    pub event: EventView,
    pub verdict: LoginVerdict,
}

/// The state of a connection after `steps`, where it was `state` before.
pub open spec fn after_steps(state: ClientState, steps: Seq<Step>) -> ClientState
    decreases steps.len(),
{
    if steps.len() == 0 {
        state
    } else {
        after_steps(state, steps.drop_last()).after(steps.last().event, steps.last().verdict).0
    }
}

/// The state of a connection from `address` after `steps`.
pub open spec fn state_after(address: IpAddr, steps: Seq<Step>) -> ClientState {
    after_steps(ClientState::fresh(address), steps)
}

/// Whether each of `steps` is one that the connection waits for.
pub open spec fn can_happen(address: IpAddr, steps: Seq<Step>) -> bool
    decreases steps.len(),
{
    steps.len() > 0 ==> {
        &&& can_happen(address, steps.drop_last())
        &&& state_after(address, steps.drop_last()).awaits(steps.last().event)
    }
}

/// Whether one of `steps` is a login that was accepted.
pub open spec fn has_accepted_login(steps: Seq<Step>) -> bool {
    exists|i: int| 0 <= i < steps.len() && #[trigger] is_accepted_login(steps[i])
}

/// Whether `step` is a login that is accepted.
pub open spec fn is_accepted_login(step: Step) -> bool {
    crate::rcon_client::login_attempt(step.event) is Some && step.verdict == LoginVerdict::Accepted
}

/// A verdict matters only for an event that brings a login.
pub proof fn law_verdict_is_for_logins(
    state: ClientState,
    event: EventView,
    verdict: LoginVerdict,
    other: LoginVerdict,
)
    requires
        crate::rcon_client::login_attempt(event) is None,
    ensures
        state.after(event, verdict) == state.after(event, other),
{
}

/// A login from a blocked address is turned down, whatever its password; another one is accepted
/// if and only if its password is the right one.
pub proof fn law_login_needs_right_password(
    blocked: bool,
    password: Seq<char>,
    provided: Seq<char>,
)
    ensures
        crate::rcon::login_verdict(blocked, password, provided) == LoginVerdict::Accepted <==> !blocked
            && password == provided,
        blocked ==> crate::rcon::login_verdict(blocked, password, provided)
            == LoginVerdict::Blocked,
{
}

/// A client has logged in only if one of its logins was accepted.
pub proof fn law_logged_in_only_after_accepted_login(address: IpAddr, steps: Seq<Step>)
    requires
        can_happen(address, steps),
    ensures
        state_after(address, steps).logged_in ==> has_accepted_login(steps),
        state_after(address, steps).phase is Accepting ==> has_accepted_login(steps),
    decreases steps.len(),
{
    if steps.len() > 0 {
        let before = steps.drop_last();
        law_logged_in_only_after_accepted_login(address, before);
        if has_accepted_login(before) {
            let i = choose|i: int| 0 <= i < before.len() && #[trigger] is_accepted_login(before[i]);
            assert(is_accepted_login(steps[i]));
        }
        if is_accepted_login(steps.last()) {
            assert(is_accepted_login(steps[steps.len() - 1]));
        }
    }
}

/// A command is run only for a client one of whose logins was accepted before.
pub proof fn law_commands_need_login(address: IpAddr, steps: Seq<Step>, next: Step)
    requires
        can_happen(address, steps),
        state_after(address, steps).awaits(next.event),
        state_after(address, steps).after(next.event, next.verdict).1 is Run,
    ensures
        state_after(address, steps).logged_in,
        has_accepted_login(steps),
{
    law_logged_in_only_after_accepted_login(address, steps);
}

/// A login that is turned down is answered with the id -1, and the connection is closed after it,
/// whether or not the answer could be sent.
pub proof fn law_refused_login_closes(
    state: ClientState,
    id: i32,
    body: Seq<char>,
    incoming: Seq<u8>,
    verdict: LoginVerdict,
    answered: EventView,
    other: LoginVerdict,
)
    requires
        verdict != LoginVerdict::Accepted,
        answered is Sent || answered is SendFailed,
    ensures
        ({
            let login = EventView::PacketReceived {
                id,
                kind: ServerboundPacket::Auth,
                body,
                incoming,
            };
            let (refused, answer) = state.after(login, verdict);
            let (after, end) = refused.after(answered, other);
            &&& answer == ActionView::Send {
                kind: ClientboundPacket::AuthResponse,
                id: REFUSED_ID,
                body: Seq::empty(),
            }
            &&& refused.awaits(answered)
            &&& after.closed
            &&& after.logged_in == state.logged_in
            &&& end == ActionView::Finish { closed: true }
        }),
{
}

/// A login that is accepted is answered with its own id. Once the answer is sent the client has
/// logged in; where it cannot be sent the connection is closed and the client has not.
pub proof fn law_accepted_login_logs_in(
    state: ClientState,
    id: i32,
    body: Seq<char>,
    incoming: Seq<u8>,
    other: LoginVerdict,
)
    ensures
        ({
            let login = EventView::PacketReceived {
                id,
                kind: ServerboundPacket::Auth,
                body,
                incoming,
            };
            let (accepted, answer) = state.after(login, LoginVerdict::Accepted);
            let (after, end) = accepted.after(EventView::Sent, other);
            let (failed, failed_end) = accepted.after(EventView::SendFailed, other);
            &&& answer == ActionView::Send {
                kind: ClientboundPacket::AuthResponse,
                id,
                body: Seq::empty(),
            }
            &&& after.logged_in
            &&& after.closed == state.closed
            &&& end == ActionView::Finish { closed: state.closed }
            &&& failed.closed
            &&& failed.logged_in == state.logged_in
            &&& failed_end == ActionView::Finish { closed: true }
        }),
{
}

/// A connection that is closed stays closed, and at its next turn is at its end.
pub proof fn law_closed_stays_closed(state: ClientState, event: EventView, verdict: LoginVerdict)
    requires
        state.closed,
        state.awaits(event),
    ensures
        state.after(event, verdict).0.closed,
        event is Handle ==> state.after(event, verdict).1 == (ActionView::Finish { closed: true }),
{
}

/// A client that has logged in stays so.
pub proof fn law_logged_in_stays(state: ClientState, event: EventView, verdict: LoginVerdict)
    requires
        state.logged_in,
    ensures
        state.after(event, verdict).0.logged_in,
{
}

/// The state of a connection and its last action, once a command was run that put out `output`
/// and the first `sent` packets were sent.
pub open spec fn after_lines_sent(
    state: ClientState,
    output: Seq<Seq<char>>,
    sent: nat,
    verdict: LoginVerdict,
) -> (ClientState, ActionView)
    decreases sent,
{
    if sent == 0 {
        state.after(EventView::CommandRun { output }, verdict)
    } else {
        after_lines_sent(state, output, (sent - 1) as nat, verdict).0.after(
            EventView::Sent,
            verdict,
        )
    }
}

/// What a command puts out is sent line by line and in order, each line with the id of the
/// command, and after the last line the turn is over.
pub proof fn law_output_is_sent_in_order(
    state: ClientState,
    id: i32,
    output: Seq<Seq<char>>,
    sent: nat,
    verdict: LoginVerdict,
)
    requires
        state.phase == (PhaseView::Running { id }),
        sent <= output.len(),
    ensures
        ({
            let (after, action) = after_lines_sent(state, output, sent, verdict);
            if sent < output.len() {
                &&& action == ActionView::Send {
                    kind: ClientboundPacket::Output,
                    id,
                    body: output[sent as int],
                }
                &&& after.phase == (PhaseView::Sending { id, rest: output.skip(sent as int + 1) })
                &&& after.closed == state.closed
            } else {
                action == (ActionView::Finish { closed: state.closed })
            }
        }),
    decreases sent,
{
    if sent > 0 {
        law_output_is_sent_in_order(state, id, output, (sent - 1) as nat, verdict);
        if sent < output.len() {
            assert(output.skip(sent as int).skip(1) =~= output.skip(sent as int + 1));
        }
    }
}

/// An address with as many wrong passwords within five minutes as are put up with is blocked for
/// the fifteen minutes after the last of them.
pub proof fn law_wrong_passwords_block(ip: IpAddr, attempts: Seq<Request>, now: nat)
    requires
        attempts.len() == RCON_MAX_FAILED_ATTEMPTS,
        crate::rate_limiter_laws::in_one_window(attempts, 300_000_000_000),
        attempts[0].now <= crate::clock::MAX_ELAPSED,
        attempts.last().block_start <= crate::clock::MAX_ELAPSED,
    ensures
        crate::rate_limiter_laws::after_requests(
            LimiterState::fresh(RCON_MAX_FAILED_ATTEMPTS, RCON_WINDOW_SECS, RCON_BLOCK_SECS),
            ip,
            attempts,
        ).is_blocked(ip, now) <==> now < attempts.last().block_start + 900_000_000_000,
{
    crate::rate_limiter_laws::law_reaching_limit_blocks(
        LimiterState::fresh(RCON_MAX_FAILED_ATTEMPTS, RCON_WINDOW_SECS, RCON_BLOCK_SECS),
        ip,
        attempts,
        now,
        now,
    );
}

/// No connection is served over the limit, and without a limit none is dropped for it.
pub proof fn law_connection_limit(blocked: bool, connections: nat, limit: nat)
    ensures
        limit != 0 && connections >= limit ==> crate::rcon::admission(blocked, connections, limit)
            != ServerAction::Serve,
        limit == 0 ==> crate::rcon::admission(blocked, connections, limit)
            != ServerAction::RejectFull,
        blocked ==> crate::rcon::admission(blocked, connections, limit)
            == ServerAction::RejectBlocked,
{
}

/// A client that ends gives back the place that it took: the count of open connections is what it
/// was before the connection was served.
pub proof fn law_ended_client_frees_its_place(connections: nat, ip: IpAddr)
    ensures
        crate::rcon::connections_after(
            crate::rcon::connections_after(
                connections,
                ServerEvent::Accepted(ip),
                ServerAction::Serve,
            ) as nat,
            ServerEvent::ClientEnded,
            ServerAction::Continue,
        ) == connections,
{
}

/// A step of the server: an event, and whether the address of a connection that came in is
/// blocked.
pub struct ServerStep {
    pub event: ServerEvent,
    pub blocked: bool,
}

/// The connections that are open after `steps`, on a server with the given limit.
pub open spec fn open_after(limit: nat, steps: Seq<ServerStep>) -> int
    decreases steps.len(),
{
    if steps.len() == 0 {
        0
    } else {
        let before = open_after(limit, steps.drop_last()) as nat;
        let step = steps.last();
        crate::rcon::connections_after(
            before,
            step.event,
            crate::rcon::server_action(step.event, step.blocked, before, limit),
        )
    }
}

/// Whether each client that ends in `steps` is one that was open.
pub open spec fn clients_end_once(limit: nat, steps: Seq<ServerStep>) -> bool
    decreases steps.len(),
{
    steps.len() > 0 ==> {
        &&& clients_end_once(limit, steps.drop_last())
        &&& steps.last().event == ServerEvent::ClientEnded ==> open_after(limit, steps.drop_last())
            > 0
    }
}

/// However connections come in and clients end, a server with a limit never has more connections
/// open than that.
pub proof fn law_open_connections_keep_to_the_limit(limit: nat, steps: Seq<ServerStep>)
    requires
        clients_end_once(limit, steps),
    ensures
        0 <= open_after(limit, steps),
        limit != 0 ==> open_after(limit, steps) <= limit,
    decreases steps.len(),
{
    if steps.len() > 0 {
        law_open_connections_keep_to_the_limit(limit, steps.drop_last());
    }
}

/// While as many clients are open as the limit allows, a further connection is dropped; once one of
/// them has ended, the next connection is served, unless its address is blocked.
pub proof fn law_full_server_waits_for_a_client_to_end(
    limit: nat,
    steps: Seq<ServerStep>,
    ip: IpAddr,
)
    requires
        limit != 0,
        clients_end_once(limit, steps),
        open_after(limit, steps) == limit,
    ensures
        ({
            let next = ServerEvent::Accepted(ip);
            let ended = steps.push(ServerStep { event: ServerEvent::ClientEnded, blocked: false });
            &&& crate::rcon::server_action(next, false, open_after(limit, steps) as nat, limit)
                == ServerAction::RejectFull
            &&& open_after(limit, ended) == limit - 1
            &&& crate::rcon::server_action(next, false, open_after(limit, ended) as nat, limit)
                == ServerAction::Serve
        }),
{
    let ended = steps.push(ServerStep { event: ServerEvent::ClientEnded, blocked: false });
    assert(ended.drop_last() =~= steps);
}

/// Whether `steps` go on with the turn that a connection in the state `state` has: each is one that
/// it waits for, and none begins a new turn.
pub open spec fn go_on(state: ClientState, steps: Seq<Step>) -> bool
    decreases steps.len(),
{
    steps.len() > 0 ==> {
        &&& go_on(state, steps.drop_last())
        &&& after_steps(state, steps.drop_last()).awaits(steps.last().event)
        &&& steps.last().event !is Handle
    }
}

/// The verdict on the login that `event` brings, if it brings one.
pub open spec fn verdict_on(event: EventView, blocked: bool, password: Seq<char>) -> LoginVerdict {
    match crate::rcon_client::login_attempt(event) {
        Some(provided) => crate::rcon::login_verdict(blocked, password, provided),
        None => LoginVerdict::Blocked,
    }
}

/// After a login a turn goes on for at most one step, which logs the client in if the login is
/// accepted and the answer sent; after anything else no step of the turn does.
proof fn lemma_rest_of_turn(
    state: ClientState,
    event: EventView,
    verdict: LoginVerdict,
    rest: Seq<Step>,
)
    requires
        state.phase is Decoding,
        state.awaits(event),
        go_on(state.after(event, verdict).0, rest),
    ensures
        ({
            let begun = state.after(event, verdict).0;
            let after = after_steps(begun, rest);
            if begun.phase is Accepting || begun.phase is Refusing {
                &&& rest.len() <= 1
                &&& rest.len() == 0 ==> after == begun
                &&& rest.len() == 1 ==> after.phase is Idle
                &&& after.logged_in <==> state.logged_in || (begun.phase is Accepting && rest.len()
                    > 0 && rest[0].event is Sent)
            } else {
                &&& after.logged_in == state.logged_in
                &&& after.phase is Idle || after.phase is Running || after.phase is Sending
            }
        }),
    decreases rest.len(),
{
    if rest.len() > 0 {
        lemma_rest_of_turn(state, event, verdict, rest.drop_last());
    }
}

/// A turn leaves a client logged in if and only if it was so before, or the packet is a login with
/// the right password from an address that is not blocked, and the answer to it was sent. So no
/// command and no other login logs a client in, and nothing logs it out.
///
/// `event` is what came of looking for a packet, and `rest` is the rest of the turn, as far as it
/// has come.
pub proof fn law_turn_logs_in_by_right_password_only(
    state: ClientState,
    event: EventView,
    blocked: bool,
    password: Seq<char>,
    rest: Seq<Step>,
)
    requires
        state.phase is Decoding,
        state.awaits(event),
        go_on(state.after(event, verdict_on(event, blocked, password)).0, rest),
    ensures
        after_steps(state.after(event, verdict_on(event, blocked, password)).0, rest).logged_in <==> {
            ||| state.logged_in
            ||| {
                &&& crate::rcon_client::login_attempt(event) == Some(password)
                &&& !blocked
                &&& rest.len() > 0
                &&& rest[0].event is Sent
            }
        },
{
    lemma_rest_of_turn(state, event, verdict_on(event, blocked, password), rest);
}

/// A login of one address: the password that came in, the moment at which the block of the address
/// is looked up, and those at which a wrong password is counted and a block starts.
pub struct Attempt {
    pub provided: Seq<char>,
    pub checked: nat,
    pub now: nat,
    pub block_start: nat,
}

/// What comes of the login `attempt` from `ip`.
pub open spec fn attempt_verdict(
    limiter: LimiterState,
    ip: IpAddr,
    password: Seq<char>,
    attempt: Attempt,
) -> LoginVerdict {
    crate::rcon::login_verdict(
        limiter.is_blocked(ip, attempt.checked),
        password,
        attempt.provided,
    )
}

/// The limiter once it is told of the login `attempt` from `ip`.
pub open spec fn after_attempt(
    limiter: LimiterState,
    ip: IpAddr,
    password: Seq<char>,
    attempt: Attempt,
) -> LimiterState {
    if attempt_verdict(limiter, ip, password, attempt) == LoginVerdict::WrongPassword {
        limiter.after_request(ip, attempt.now, attempt.block_start)
    } else {
        limiter
    }
}

/// The limiter once it is told of the logins `attempts` from `ip`, in order.
pub open spec fn after_attempts(
    limiter: LimiterState,
    ip: IpAddr,
    password: Seq<char>,
    attempts: Seq<Attempt>,
) -> LimiterState
    decreases attempts.len(),
{
    if attempts.len() == 0 {
        limiter
    } else {
        after_attempt(
            after_attempts(limiter, ip, password, attempts.drop_last()),
            ip,
            password,
            attempts.last(),
        )
    }
}

/// What a step tells the limiter of a login is just that attempt, at readings of the limiter's
/// clock.
pub proof fn law_limiter_is_told_of_the_attempt(
    started: Instant,
    before: LimiterState,
    ip: IpAddr,
    password: Seq<char>,
    provided: Seq<char>,
    checked: u128,
    after: LimiterState,
)
    requires
        crate::clock::can_read(started, checked),
        crate::rcon_client::is_told(
            started,
            before,
            ip,
            crate::rcon::login_verdict(before.is_blocked(ip, checked as nat), password, provided),
            after,
        ),
    ensures
        exists|now: u128, block_start: u128|
            {
                &&& crate::clock::can_read(started, now)
                &&& crate::clock::can_read(started, block_start)
                &&& after == #[trigger] after_attempt(
                    before,
                    ip,
                    password,
                    Attempt {
                        provided,
                        checked: checked as nat,
                        now: now as nat,
                        block_start: block_start as nat,
                    },
                )
            },
{
    let verdict = crate::rcon::login_verdict(
        before.is_blocked(ip, checked as nat),
        password,
        provided,
    );
    let (now, block_start) = if verdict == LoginVerdict::WrongPassword {
        choose|now: u128, block_start: u128|
            {
                &&& crate::clock::can_read(started, now)
                &&& crate::clock::can_read(started, block_start)
                &&& after == #[trigger] before.after_request(ip, now as nat, block_start as nat)
            }
    } else {
        (checked, checked)
    };
    assert(after == after_attempt(
        before,
        ip,
        password,
        Attempt {
            provided,
            checked: checked as nat,
            now: now as nat,
            block_start: block_start as nat,
        },
    ));
}

/// The requests that the limiter counts for wrong passwords.
pub open spec fn as_requests(attempts: Seq<Attempt>) -> Seq<Request> {
    attempts.map_values(
        |attempt: Attempt| Request { now: attempt.now, block_start: attempt.block_start },
    )
}

/// Whether a limiter has the settings of the console: five wrong passwords in five minutes, and a
/// block of fifteen.
pub open spec fn has_console_settings(limiter: LimiterState) -> bool {
    &&& limiter.max_requests == RCON_MAX_FAILED_ATTEMPTS
    &&& limiter.window == 300_000_000_000
    &&& limiter.block_duration == 900_000_000_000
}

/// Whether `attempts` are wrong passwords of an address that is neither blocked nor has any on its
/// account, all within five minutes of the first.
pub open spec fn are_wrong_in_one_window(
    limiter: LimiterState,
    ip: IpAddr,
    password: Seq<char>,
    attempts: Seq<Attempt>,
) -> bool {
    &&& forall|i: int|
        #![trigger attempts[i]]
        0 <= i < attempts.len() ==> {
            &&& attempts[i].provided != password
            &&& !limiter.is_blocked(ip, attempts[i].checked)
            &&& attempts[i].now < attempts[0].now + 300_000_000_000
            &&& attempts[i].now <= crate::clock::MAX_ELAPSED
            &&& attempts[i].block_start <= crate::clock::MAX_ELAPSED
        }
    &&& attempts.len() > 0 ==> !limiter.in_window(ip, attempts[0].now)
}

/// Up to five wrong passwords are counted, each of them, and before the fifth they do not block.
proof fn lemma_attempts_are_counted(
    limiter: LimiterState,
    ip: IpAddr,
    password: Seq<char>,
    attempts: Seq<Attempt>,
    checked: nat,
)
    requires
        has_console_settings(limiter),
        are_wrong_in_one_window(limiter, ip, password, attempts),
        attempts.len() <= RCON_MAX_FAILED_ATTEMPTS,
    ensures
        after_attempts(limiter, ip, password, attempts)
            == crate::rate_limiter_laws::after_requests(limiter, ip, as_requests(attempts)),
        attempts.len() < RCON_MAX_FAILED_ATTEMPTS && !limiter.is_blocked(ip, checked)
            ==> !after_attempts(limiter, ip, password, attempts).is_blocked(ip, checked),
    decreases attempts.len(),
{
    let requests = as_requests(attempts);
    if attempts.len() > 0 {
        let before = attempts.drop_last();
        assert forall|i: int|
            #![trigger before[i]]
            0 <= i < before.len() implies before[i] == attempts[i] by {}
        assert(attempts.last() == attempts[attempts.len() - 1]);
        lemma_attempts_are_counted(limiter, ip, password, before, attempts.last().checked);
        assert(requests.drop_last() =~= as_requests(before));
        lemma_in_one_window(attempts);
        if attempts.len() < RCON_MAX_FAILED_ATTEMPTS && !limiter.is_blocked(ip, checked) {
            crate::rate_limiter_laws::law_under_limit_is_allowed(
                limiter,
                ip,
                requests,
                checked,
                checked,
            );
        }
    }
}

/// The requests of attempts within five minutes are in one window of that length.
proof fn lemma_in_one_window(attempts: Seq<Attempt>)
    requires
        forall|i: int|
            0 <= i < attempts.len() ==> (#[trigger] attempts[i]).now < attempts[0].now
                + 300_000_000_000,
    ensures
        crate::rate_limiter_laws::in_one_window(as_requests(attempts), 300_000_000_000),
{
    let requests = as_requests(attempts);
    assert forall|i: int| 0 <= i < requests.len() implies #[trigger] requests[i].now
        < requests[0].now + 300_000_000_000 by {
        assert(requests[i].now == attempts[i].now);
    }
}

/// While fewer than five wrong passwords came in, the right one is accepted.
pub proof fn law_few_wrong_passwords_do_not_lock_out(
    limiter: LimiterState,
    ip: IpAddr,
    password: Seq<char>,
    attempts: Seq<Attempt>,
    checked: nat,
)
    requires
        has_console_settings(limiter),
        are_wrong_in_one_window(limiter, ip, password, attempts),
        attempts.len() < RCON_MAX_FAILED_ATTEMPTS,
        !limiter.is_blocked(ip, checked),
    ensures
        !after_attempts(limiter, ip, password, attempts).is_blocked(ip, checked),
        crate::rcon::login_verdict(
            after_attempts(limiter, ip, password, attempts).is_blocked(ip, checked),
            password,
            password,
        ) == LoginVerdict::Accepted,
{
    lemma_attempts_are_counted(limiter, ip, password, attempts, checked);
}

/// After five wrong passwords within five minutes an address is locked out for the fifteen minutes
/// after the last of them: until then even the right password, on a new connection, is answered
/// with the id -1 and an empty body, the client is not logged in and the connection is closed. After
/// that the right password is accepted again.
pub proof fn law_five_wrong_passwords_lock_out(
    limiter: LimiterState,
    ip: IpAddr,
    password: Seq<char>,
    attempts: Seq<Attempt>,
    checked: nat,
    state: ClientState,
    id: i32,
    incoming: Seq<u8>,
    answered: EventView,
    other: LoginVerdict,
)
    requires
        has_console_settings(limiter),
        are_wrong_in_one_window(limiter, ip, password, attempts),
        attempts.len() == RCON_MAX_FAILED_ATTEMPTS,
        answered is Sent || answered is SendFailed,
    ensures
        ({
            let told = after_attempts(limiter, ip, password, attempts);
            let end = attempts.last().block_start + 900_000_000_000;
            let verdict = crate::rcon::login_verdict(
                told.is_blocked(ip, checked),
                password,
                password,
            );
            let login = EventView::PacketReceived {
                id,
                kind: ServerboundPacket::Auth,
                body: password,
                incoming,
            };
            let (refused, answer) = state.after(login, verdict);
            let (after, action) = refused.after(answered, other);
            &&& told.is_blocked(ip, checked) <==> checked < end
            &&& checked >= end ==> verdict == LoginVerdict::Accepted
            &&& checked < end ==> {
                &&& verdict == LoginVerdict::Blocked
                &&& answer == ActionView::Send {
                    kind: ClientboundPacket::AuthResponse,
                    id: REFUSED_ID,
                    body: Seq::empty(),
                }
                &&& after.logged_in == state.logged_in
                &&& after.closed
                &&& action == ActionView::Finish { closed: true }
            }
        }),
{
    let requests = as_requests(attempts);
    lemma_attempts_are_counted(limiter, ip, password, attempts, checked);
    lemma_in_one_window(attempts);
    assert(attempts[0].now <= crate::clock::MAX_ELAPSED);
    assert(attempts.last() == attempts[attempts.len() - 1]);
    crate::rate_limiter_laws::law_reaching_limit_blocks(limiter, ip, requests, checked, checked);
}

/// A limiter as the console makes it has its settings, and no address is blocked or has wrong
/// passwords on its account.
pub proof fn law_console_starts_without_lock_outs(ip: IpAddr, now: nat)
    ensures
        ({
            let limiter = LimiterState::fresh(
                RCON_MAX_FAILED_ATTEMPTS,
                RCON_WINDOW_SECS,
                RCON_BLOCK_SECS,
            );
            &&& has_console_settings(limiter)
            &&& !limiter.is_blocked(ip, now)
            &&& !limiter.in_window(ip, now)
        }),
{
}

/// Nothing can be learned from the answer to a wrong password but that it is wrong: two logins that
/// differ in nothing but their wrong passwords get the same verdict and the same answer, and leave
/// the connection and the limiter in the same state, then and for the rest of the turn.
pub proof fn law_wrong_passwords_are_alike(
    state: ClientState,
    limiter: LimiterState,
    ip: IpAddr,
    id: i32,
    incoming: Seq<u8>,
    password: Seq<char>,
    attempt: Attempt,
    other: Seq<char>,
    rest: Seq<Step>,
)
    requires
        attempt.provided != password,
        other != password,
    ensures
        ({
            let other_attempt = Attempt { provided: other, ..attempt };
            let verdict = attempt_verdict(limiter, ip, password, attempt);
            let other_verdict = attempt_verdict(limiter, ip, password, other_attempt);
            let kind = ServerboundPacket::Auth;
            let event = EventView::PacketReceived { id, kind, body: attempt.provided, incoming };
            let other_event = EventView::PacketReceived { id, kind, body: other, incoming };
            &&& verdict == other_verdict
            &&& verdict != LoginVerdict::Accepted
            &&& state.after(event, verdict) == state.after(other_event, other_verdict)
            &&& after_steps(state.after(event, verdict).0, rest) == after_steps(
                state.after(other_event, other_verdict).0,
                rest,
            )
            &&& after_attempt(limiter, ip, password, attempt) == after_attempt(
                limiter,
                ip,
                password,
                other_attempt,
            )
        }),
{
}

} // verus!
