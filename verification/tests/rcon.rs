use pumpkin_net::ip::IpAddr;
use pumpkin_net::rate_limiter::RateLimiter;
use pumpkin_net::rcon::{
    judge_login, ClientboundPacket, LoginVerdict, Packet, RCONServer, ServerAction, ServerEvent,
    ServerboundPacket,
};
use pumpkin_net::rcon_client::{ClientAction, ClientEvent, RCONClient};

const CLIENT: IpAddr = IpAddr::V4(0x0A00_0001);

/// One step with this password for the right one.
fn handle(
    client: &mut RCONClient,
    event: ClientEvent,
    password: &str,
    limiter: &mut RateLimiter,
) -> ClientAction {
    client.handle(event, password, limiter).action
}

fn packet(id: i32, kind: ServerboundPacket, body: &str, left: &[u8]) -> ClientEvent {
    ClientEvent::PacketReceived {
        packet: Packet { id, kind, body: body.to_string() },
        incoming: left.to_vec(),
    }
}

/// Brings the client to the point where it waits for a packet.
fn start_turn(client: &mut RCONClient, limiter: &mut RateLimiter) {
    assert!(matches!(handle(client, ClientEvent::Handle, "secret", limiter), ClientAction::Read));
    let action = handle(client, ClientEvent::BytesRead(vec![1]), "secret", limiter);
    assert!(matches!(action, ClientAction::Decode { .. }));
}

/// Sends a login with this password, and returns the id in the answer.
fn try_login(client: &mut RCONClient, limiter: &mut RateLimiter, password: &str) -> i32 {
    start_turn(client, limiter);
    let event = packet(9, ServerboundPacket::Auth, password, &[]);
    match handle(client, event, "secret", limiter) {
        ClientAction::Send { kind: ClientboundPacket::AuthResponse, id, body } => {
            assert_eq!(body, "");
            id
        }
        _ => panic!("a login is answered"),
    }
}

fn logged_in(limiter: &mut RateLimiter) -> RCONClient {
    let mut client = RCONClient::new(CLIENT);
    assert_eq!(try_login(&mut client, limiter, "secret"), 9);
    let action = handle(&mut client, ClientEvent::Sent, "secret", limiter);
    assert!(matches!(action, ClientAction::Finish { closed: false }));
    client
}

#[test]
fn login_needs_the_whole_password() {
    assert_eq!(judge_login(false, "secret", "secret"), LoginVerdict::Accepted);
    assert_eq!(judge_login(false, "", ""), LoginVerdict::Accepted);
    for wrong in ["", "secre", "secrets", "secreT", "Secret", "terces"] {
        assert_eq!(judge_login(false, "secret", wrong), LoginVerdict::WrongPassword);
    }
    assert_eq!(judge_login(false, "pässword", "pässword"), LoginVerdict::Accepted);
    assert_eq!(judge_login(false, "pässword", "paessword"), LoginVerdict::WrongPassword);
    assert_eq!(judge_login(true, "secret", "secret"), LoginVerdict::Blocked);
    assert_eq!(judge_login(true, "secret", "wrong"), LoginVerdict::Blocked);
}

#[test]
fn server_waits_until_it_should_stop() {
    let limiter = RCONServer::rate_limiter();
    let mut server = RCONServer::new(1);
    let ready = ServerEvent::Ready { should_stop: false };
    assert_eq!(server.run(ready, &limiter), ServerAction::Accept);
    assert_eq!(server.run(ServerEvent::Interrupted, &limiter), ServerAction::Stop);
    assert_eq!(server.run(ServerEvent::AcceptFailed, &limiter), ServerAction::Fail);
    let stop = ServerEvent::Ready { should_stop: true };
    assert_eq!(server.run(stop, &limiter), ServerAction::Stop);
}

#[test]
fn server_limits_its_connections() {
    let limiter = RCONServer::rate_limiter();
    let mut server = RCONServer::new(2);
    let accepted = ServerEvent::Accepted(CLIENT);
    let ready = ServerEvent::Ready { should_stop: false };
    for _ in 0..2 {
        assert_eq!(server.run(ready, &limiter), ServerAction::Accept);
        assert_eq!(server.run(accepted, &limiter), ServerAction::Serve);
    }
    assert_eq!(server.count_connections(), 2);
    // As long as both clients are open, nobody else gets in.
    for _ in 0..3 {
        assert_eq!(server.run(ready, &limiter), ServerAction::Accept);
        assert_eq!(server.run(accepted, &limiter), ServerAction::RejectFull);
    }
    assert_eq!(server.run(ServerEvent::ClientEnded, &limiter), ServerAction::Continue);
    assert_eq!(server.count_connections(), 1);
    assert_eq!(server.run(accepted, &limiter), ServerAction::Serve);
    assert_eq!(server.run(accepted, &limiter), ServerAction::RejectFull);
}

#[test]
fn server_with_one_place_serves_one_client_at_a_time() {
    let limiter = RCONServer::rate_limiter();
    let mut server = RCONServer::new(1);
    for _ in 0..3 {
        assert_eq!(server.run(ServerEvent::Accepted(CLIENT), &limiter), ServerAction::Serve);
        let next = ServerEvent::Accepted(IpAddr::V4(2));
        assert_eq!(server.run(next, &limiter), ServerAction::RejectFull);
        assert_eq!(server.run(ServerEvent::ClientEnded, &limiter), ServerAction::Continue);
    }
    assert_eq!(server.count_connections(), 0);
}

#[test]
fn server_without_limit_serves_all() {
    let limiter = RCONServer::rate_limiter();
    let mut server = RCONServer::new(0);
    for _ in 0..1000 {
        assert_eq!(server.run(ServerEvent::Accepted(CLIENT), &limiter), ServerAction::Serve);
    }
}

#[test]
fn server_rejects_blocked_addresses_first() {
    let mut limiter = RCONServer::rate_limiter();
    limiter.block(&CLIENT);
    let mut server = RCONServer::new(1);
    assert_eq!(server.run(ServerEvent::Accepted(CLIENT), &limiter), ServerAction::RejectBlocked);
    assert_eq!(server.run(ServerEvent::Accepted(IpAddr::V4(2)), &limiter), ServerAction::Serve);
    assert_eq!(server.run(ServerEvent::Accepted(IpAddr::V4(3)), &limiter), ServerAction::RejectFull);
    assert_eq!(server.run(ServerEvent::Accepted(CLIENT), &limiter), ServerAction::RejectBlocked);
    assert_eq!(server.decide(true), ServerAction::RejectBlocked);
    assert_eq!(server.decide(false), ServerAction::RejectFull);
}

#[test]
fn stream_that_ends_or_breaks_closes() {
    let mut limiter = RCONServer::rate_limiter();
    let mut client = RCONClient::new(CLIENT);
    assert!(matches!(handle(&mut client, ClientEvent::Handle, "", &mut limiter), ClientAction::Read));
    assert!(matches!(
        handle(&mut client, ClientEvent::BytesRead(vec![]), "", &mut limiter),
        ClientAction::Finish { closed: true }
    ));
    let mut client = RCONClient::new(CLIENT);
    assert!(matches!(handle(&mut client, ClientEvent::Handle, "", &mut limiter), ClientAction::Read));
    assert!(matches!(
        handle(&mut client, ClientEvent::ReadFailed, "", &mut limiter),
        ClientAction::Finish { closed: true }
    ));
}

#[test]
fn bytes_are_gathered_until_they_make_a_packet() {
    let mut limiter = RCONServer::rate_limiter();
    let mut client = RCONClient::new(CLIENT);
    handle(&mut client, ClientEvent::Handle, "", &mut limiter);
    match handle(&mut client, ClientEvent::BytesRead(vec![1, 2]), "", &mut limiter) {
        ClientAction::Decode { incoming } => assert_eq!(incoming, [1, 2]),
        _ => panic!("bytes are decoded"),
    }
    let event = ClientEvent::NoPacket { incoming: vec![1, 2] };
    assert!(matches!(
        handle(&mut client, event, "", &mut limiter),
        ClientAction::Finish { closed: false }
    ));
    handle(&mut client, ClientEvent::Handle, "", &mut limiter);
    match handle(&mut client, ClientEvent::BytesRead(vec![3]), "", &mut limiter) {
        ClientAction::Decode { incoming } => assert_eq!(incoming, [1, 2, 3]),
        _ => panic!("bytes are decoded"),
    }
    let event = ClientEvent::PacketFailed { incoming: vec![] };
    assert!(matches!(
        handle(&mut client, event, "", &mut limiter),
        ClientAction::Finish { closed: true }
    ));
    // A closed connection does not read again.
    assert!(matches!(
        handle(&mut client, ClientEvent::Handle, "", &mut limiter),
        ClientAction::Finish { closed: true }
    ));
}

#[test]
fn bytes_after_a_packet_are_kept() {
    let mut limiter = RCONServer::rate_limiter();
    let mut client = RCONClient::new(CLIENT);
    start_turn(&mut client, &mut limiter);
    let event = packet(3, ServerboundPacket::ExecCommand, "stop", &[7, 8]);
    handle(&mut client, event, "secret", &mut limiter);
    handle(&mut client, ClientEvent::Handle, "secret", &mut limiter);
    match handle(&mut client, ClientEvent::BytesRead(vec![9]), "secret", &mut limiter) {
        ClientAction::Decode { incoming } => assert_eq!(incoming, [7, 8, 9]),
        _ => panic!("bytes are decoded"),
    }
}

#[test]
fn commands_before_the_login_are_passed_over() {
    let mut limiter = RCONServer::rate_limiter();
    let mut client = RCONClient::new(CLIENT);
    start_turn(&mut client, &mut limiter);
    let event = packet(3, ServerboundPacket::ExecCommand, "stop", &[]);
    assert!(matches!(
        handle(&mut client, event, "secret", &mut limiter),
        ClientAction::Finish { closed: false }
    ));
}

#[test]
fn output_of_a_command_is_sent_in_order() {
    let mut limiter = RCONServer::rate_limiter();
    let mut client = logged_in(&mut limiter);
    start_turn(&mut client, &mut limiter);
    let event = packet(3, ServerboundPacket::ExecCommand, "list", &[]);
    match handle(&mut client, event, "secret", &mut limiter) {
        ClientAction::Run { command } => assert_eq!(command, "list"),
        _ => panic!("a command is run"),
    }
    let lines = ["one", "two", "three"];
    let mut event = ClientEvent::CommandRun {
        output: lines.iter().map(|line| line.to_string()).collect(),
    };
    for line in lines {
        match handle(&mut client, event, "secret", &mut limiter) {
            ClientAction::Send { kind: ClientboundPacket::Output, id, body } => {
                assert_eq!((id, body.as_str()), (3, line));
            }
            _ => panic!("a line is sent"),
        }
        event = ClientEvent::Sent;
    }
    assert!(matches!(
        handle(&mut client, event, "secret", &mut limiter),
        ClientAction::Finish { closed: false }
    ));
}

#[test]
fn command_without_output_ends_the_turn() {
    let mut limiter = RCONServer::rate_limiter();
    let mut client = logged_in(&mut limiter);
    start_turn(&mut client, &mut limiter);
    handle(&mut client, packet(3, ServerboundPacket::ExecCommand, "list", &[]), "secret", &mut limiter);
    assert!(matches!(
        handle(&mut client, ClientEvent::CommandRun { output: vec![] }, "secret", &mut limiter),
        ClientAction::Finish { closed: false }
    ));
}

#[test]
fn output_that_cannot_be_sent_closes() {
    let mut limiter = RCONServer::rate_limiter();
    let mut client = logged_in(&mut limiter);
    start_turn(&mut client, &mut limiter);
    handle(&mut client, packet(3, ServerboundPacket::ExecCommand, "list", &[]), "secret", &mut limiter);
    let output = vec!["one".to_string(), "two".to_string()];
    handle(&mut client, ClientEvent::CommandRun { output }, "secret", &mut limiter);
    assert!(matches!(
        handle(&mut client, ClientEvent::SendFailed, "secret", &mut limiter),
        ClientAction::Finish { closed: true }
    ));
}

#[test]
fn answer_that_cannot_be_sent_does_not_log_in() {
    let mut limiter = RCONServer::rate_limiter();
    let mut client = RCONClient::new(CLIENT);
    assert_eq!(try_login(&mut client, &mut limiter, "secret"), 9);
    assert!(matches!(
        handle(&mut client, ClientEvent::SendFailed, "secret", &mut limiter),
        ClientAction::Finish { closed: true }
    ));
}

#[test]
fn wrong_password_is_counted_and_closes() {
    let mut limiter = RCONServer::rate_limiter();
    let mut client = RCONClient::new(CLIENT);
    assert_eq!(try_login(&mut client, &mut limiter, "wrong"), -1);
    assert_eq!(limiter.get_count(&CLIENT), 1);
    assert!(matches!(
        handle(&mut client, ClientEvent::Sent, "secret", &mut limiter),
        ClientAction::Finish { closed: true }
    ));
}

#[test]
fn right_password_is_not_counted() {
    let mut limiter = RCONServer::rate_limiter();
    logged_in(&mut limiter);
    assert_eq!(limiter.get_count(&CLIENT), 0);
}

#[test]
fn five_wrong_passwords_block() {
    let mut limiter = RCONServer::rate_limiter();
    for attempt in 1..=5 {
        assert!(!limiter.is_blocked(&CLIENT));
        let mut client = RCONClient::new(CLIENT);
        assert_eq!(try_login(&mut client, &mut limiter, "wrong"), -1);
        assert_eq!(limiter.get_count(&CLIENT), attempt);
    }
    assert!(limiter.is_blocked(&CLIENT));
    // The right password does not help any more, and is not counted.
    let mut client = RCONClient::new(CLIENT);
    assert_eq!(try_login(&mut client, &mut limiter, "secret"), -1);
    assert_eq!(limiter.get_count(&CLIENT), 5);
    assert!(matches!(
        handle(&mut client, ClientEvent::Sent, "secret", &mut limiter),
        ClientAction::Finish { closed: true }
    ));
    assert!(!limiter.is_blocked(&IpAddr::V4(2)));
}

#[test]
fn verdict_is_told() {
    let mut limiter = RCONServer::rate_limiter();
    for (password, verdict) in
        [("secret", LoginVerdict::Accepted), ("wrong", LoginVerdict::WrongPassword)]
    {
        let mut client = RCONClient::new(CLIENT);
        start_turn(&mut client, &mut limiter);
        let event = packet(1, ServerboundPacket::Auth, password, &[]);
        assert_eq!(client.handle(event, "secret", &mut limiter).login, Some(verdict));
    }
    limiter.block(&CLIENT);
    let mut client = RCONClient::new(CLIENT);
    assert_eq!(client.handle(ClientEvent::Handle, "secret", &mut limiter).login, None);
    client.handle(ClientEvent::BytesRead(vec![1]), "secret", &mut limiter);
    let event = packet(1, ServerboundPacket::Auth, "secret", &[]);
    let login = client.handle(event, "secret", &mut limiter).login;
    assert_eq!(login, Some(LoginVerdict::Blocked));
}

#[test]
fn step_takes_the_verdict_as_given() {
    let mut client = RCONClient::new(CLIENT);
    client.step(ClientEvent::Handle, LoginVerdict::Blocked);
    client.step(ClientEvent::BytesRead(vec![1]), LoginVerdict::Blocked);
    let event = packet(5, ServerboundPacket::Auth, "whatever", &[]);
    assert!(matches!(
        client.step(event, LoginVerdict::Accepted),
        ClientAction::Send { kind: ClientboundPacket::AuthResponse, id: 5, .. }
    ));
}

#[test]
fn verdict_matters_for_logins_only() {
    for verdict in [LoginVerdict::Blocked, LoginVerdict::Accepted, LoginVerdict::WrongPassword] {
        let mut client = RCONClient::new(CLIENT);
        assert!(matches!(client.step(ClientEvent::Handle, verdict), ClientAction::Read));
        client.step(ClientEvent::BytesRead(vec![1]), verdict);
        let event = packet(5, ServerboundPacket::ExecCommand, "stop", &[]);
        assert!(matches!(client.step(event, verdict), ClientAction::Finish { closed: false }));
    }
}

#[test]
fn wrong_passwords_are_alike() {
    let mut answers = Vec::new();
    for wrong in ["", "secreT", "much longer than the right one"] {
        let mut limiter = RCONServer::rate_limiter();
        let mut client = RCONClient::new(CLIENT);
        let id = try_login(&mut client, &mut limiter, wrong);
        let action = handle(&mut client, ClientEvent::Sent, "secret", &mut limiter);
        let closed = matches!(action, ClientAction::Finish { closed: true });
        answers.push((id, closed, limiter.get_count(&CLIENT)));
    }
    assert_eq!(answers, [(-1, true, 1); 3]);
}

#[test]
fn right_password_is_accepted_after_four_wrong_ones() {
    let mut limiter = RCONServer::rate_limiter();
    for _ in 0..4 {
        let mut client = RCONClient::new(CLIENT);
        assert_eq!(try_login(&mut client, &mut limiter, "wrong"), -1);
        assert!(!limiter.is_blocked(&CLIENT));
    }
    logged_in(&mut limiter);
}

#[test]
fn nothing_but_an_answered_login_logs_in() {
    let mut limiter = RCONServer::rate_limiter();
    let mut client = RCONClient::new(CLIENT);
    for _ in 0..2 {
        start_turn(&mut client, &mut limiter);
        let event = packet(3, ServerboundPacket::ExecCommand, "secret", &[]);
        let action = handle(&mut client, event, "secret", &mut limiter);
        assert!(matches!(action, ClientAction::Finish { closed: false }));
    }
    let mut client = logged_in(&mut limiter);
    for _ in 0..2 {
        start_turn(&mut client, &mut limiter);
        let event = packet(3, ServerboundPacket::ExecCommand, "list", &[]);
        let action = handle(&mut client, event, "secret", &mut limiter);
        assert!(matches!(action, ClientAction::Run { .. }));
        let event = ClientEvent::CommandRun { output: vec![] };
        handle(&mut client, event, "secret", &mut limiter);
    }
}
