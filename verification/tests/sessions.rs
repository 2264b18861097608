use badge_net::client::apply_update;
use badge_net::client::ClientAction;
use badge_net::client::ClientEvent;
use badge_net::client::ClientSession;
use badge_net::client::OPERATION_TIMEOUT_MS;
use badge_net::connection::Connection;
use badge_net::error::Error;
use badge_net::message::Request;
use badge_net::message::Update;
use badge_net::race::wait_timeout;
use badge_net::race::FirstOrSecond;
use badge_net::relay::LatestSlot;
use badge_net::relay::Mailbox;
use badge_net::server::ServerAction;
use badge_net::server::ServerEvent;
use badge_net::server::ServerSession;
use badge_net::server::POLL_INTERVAL_MS;
use badge_net::shared_state::get_frequency;
use badge_net::shared_state::get_text;
use badge_net::shared_state::set_frequency;
use badge_net::shared_state::set_text;
use badge_net::shared_state::SharedState;
use badge_net::supervisor::Report;
use badge_net::supervisor::Stage;
use badge_net::supervisor::Status;
use badge_net::supervisor::Supervisor;
use badge_net::supervisor::BACKOFF_MS;
use badge_net::transport::MemoryStream;

fn update(text: Option<&str>, freq: Option<u32>) -> Update {
    Update {
        text: text.map(|t| t.to_string()),
        freq,
    }
}

fn holds(text: Option<&str>, freq: Option<u32>) -> ServerEvent {
    ServerEvent::StateRead {
        text: text.map(|t| t.to_string()),
        freq,
    }
}

#[test]
fn client_cycles_through_its_states() {
    let (mut session, first) = ClientSession::start();
    assert_eq!(first, ClientAction::Send(Request::Ready));
    assert!(!session.is_over());
    assert_eq!(session.step(ClientEvent::Sent(Ok(()))), ClientAction::Receive);
    let news = update(Some("HELLO"), Some(500));
    assert_eq!(
        session.step(ClientEvent::Received(Ok(news.clone()))),
        ClientAction::Apply(news)
    );
    assert_eq!(
        session.step(ClientEvent::Applied),
        ClientAction::Send(Request::Ready)
    );
    assert_eq!(session.step(ClientEvent::Sent(Ok(()))), ClientAction::Receive);
    assert!(!session.is_over());
    assert_eq!(session.failure(), None);
}

#[test]
fn client_stops_on_every_error() {
    let errors = [
        Error::Transport,
        Error::Timeout,
        Error::Framing,
        Error::Decode,
        Error::Encode,
        Error::Protocol,
    ];
    for e in errors {
        let (mut session, _) = ClientSession::start();
        assert_eq!(session.step(ClientEvent::Sent(Err(e))), ClientAction::Stop);
        assert!(session.is_over());
        assert_eq!(session.failure(), Some(e));

        let (mut session, _) = ClientSession::start();
        session.step(ClientEvent::Sent(Ok(())));
        assert_eq!(session.step(ClientEvent::Received(Err(e))), ClientAction::Stop);
        assert_eq!(session.failure(), Some(e));
        assert_eq!(session.step(ClientEvent::Sent(Ok(()))), ClientAction::Stop);
        assert_eq!(session.step(ClientEvent::Applied), ClientAction::Stop);
        assert_eq!(session.failure(), Some(e));
    }
}

#[test]
fn client_refuses_events_out_of_turn() {
    let (mut session, _) = ClientSession::start();
    assert_eq!(
        session.step(ClientEvent::Received(Ok(Update::unchanged()))),
        ClientAction::Stop
    );
    assert_eq!(session.failure(), Some(Error::Protocol));

    let (mut session, _) = ClientSession::start();
    assert_eq!(session.step(ClientEvent::Applied), ClientAction::Stop);
    assert_eq!(session.failure(), Some(Error::Protocol));

    let (mut session, _) = ClientSession::start();
    session.step(ClientEvent::Sent(Ok(())));
    assert_eq!(session.step(ClientEvent::Sent(Ok(()))), ClientAction::Stop);
    assert_eq!(session.failure(), Some(Error::Protocol));

    let (mut session, _) = ClientSession::start();
    session.step(ClientEvent::Sent(Ok(())));
    session.step(ClientEvent::Received(Ok(Update::unchanged())));
    assert_eq!(
        session.step(ClientEvent::Received(Ok(Update::unchanged()))),
        ClientAction::Stop
    );
    assert_eq!(session.failure(), Some(Error::Protocol));
}

#[test]
fn client_closes_in_good_order() {
    let (mut session, _) = ClientSession::start();
    session.step(ClientEvent::Sent(Ok(())));
    session.request_close();
    assert_eq!(
        session.step(ClientEvent::Received(Ok(Update::unchanged()))),
        ClientAction::Apply(Update::unchanged())
    );
    assert_eq!(
        session.step(ClientEvent::Applied),
        ClientAction::Send(Request::Close)
    );
    assert_eq!(session.step(ClientEvent::Sent(Ok(()))), ClientAction::Stop);
    assert!(session.is_over());
    assert_eq!(session.failure(), None);
}

#[test]
fn client_ends_when_the_peer_closes() {
    let (mut session, _) = ClientSession::start();
    session.step(ClientEvent::Sent(Ok(())));
    assert_eq!(session.step(ClientEvent::PeerClosed), ClientAction::Stop);
    assert!(session.is_over());
    assert_eq!(session.failure(), None);
    assert_eq!(session.step(ClientEvent::Sent(Err(Error::Transport))), ClientAction::Stop);
    assert_eq!(session.failure(), None);
}

#[test]
fn timeout_ends_the_session() {
    assert_eq!(OPERATION_TIMEOUT_MS, 10_000);
    let lost: FirstOrSecond<Result<Update, Error>, ()> = FirstOrSecond::Second(());
    let won: FirstOrSecond<Result<Update, Error>, ()> =
        FirstOrSecond::First(Ok(update(None, Some(7))));
    let failed: FirstOrSecond<Result<Update, Error>, ()> =
        FirstOrSecond::First(Err(Error::Decode));
    assert_eq!(wait_timeout(won), Ok(update(None, Some(7))));
    assert_eq!(wait_timeout(failed), Err(Error::Decode));
    let (mut session, _) = ClientSession::start();
    session.step(ClientEvent::Sent(Ok(())));
    assert_eq!(
        session.step(ClientEvent::Received(wait_timeout(lost))),
        ClientAction::Stop
    );
    assert_eq!(session.failure(), Some(Error::Timeout));
    let sent: FirstOrSecond<Result<(), Error>, ()> = FirstOrSecond::Second(());
    let (mut session, _) = ClientSession::start();
    assert_eq!(session.step(ClientEvent::Sent(wait_timeout(sent))), ClientAction::Stop);
    assert_eq!(session.failure(), Some(Error::Timeout));
}

#[test]
fn update_is_applied_to_the_relays() {
    let mut slot = LatestSlot::new();
    let mut mailbox = Mailbox::new();
    assert_eq!(
        apply_update(update(Some("HELLO"), Some(500)), &mut slot, &mut mailbox),
        None
    );
    assert_eq!(slot.take(), Some(500));
    assert_eq!(mailbox.try_receive(), Some("HELLO".to_string()));

    assert_eq!(apply_update(update(None, Some(100)), &mut slot, &mut mailbox), None);
    assert_eq!(apply_update(update(None, Some(250)), &mut slot, &mut mailbox), None);
    assert_eq!(mailbox.len(), 0);
    assert_eq!(slot.take(), Some(250));

    assert_eq!(apply_update(update(Some("a"), None), &mut slot, &mut mailbox), None);
    assert_eq!(slot.take(), None);
    assert_eq!(mailbox.len(), 1);

    assert_eq!(apply_update(Update::unchanged(), &mut slot, &mut mailbox), None);
    assert_eq!(slot.take(), None);
    assert_eq!(mailbox.len(), 1);
}

#[test]
fn text_for_a_full_mailbox_is_not_delivered() {
    let mut slot = LatestSlot::new();
    let mut mailbox = Mailbox::new();
    for text in ["a", "b", "c"] {
        assert_eq!(apply_update(update(Some(text), None), &mut slot, &mut mailbox), None);
    }
    assert_eq!(
        apply_update(update(Some("d"), Some(4_000_000_000)), &mut slot, &mut mailbox),
        Some("d".to_string())
    );
    assert_eq!(slot.take(), Some(4_000_000_000));
    assert_eq!(mailbox.try_receive(), Some("a".to_string()));
    assert_eq!(mailbox.try_receive(), Some("b".to_string()));
    assert_eq!(mailbox.try_receive(), Some("c".to_string()));
    assert_eq!(mailbox.try_receive(), None);
}

/// One round of a server session: a `Ready` comes in while the store holds
/// `text` and `freq`; returns the reply that goes out.
fn round(session: &mut ServerSession, text: Option<&str>, freq: Option<u32>) -> Update {
    assert_eq!(
        session.step(ServerEvent::RequestRead(Ok(Request::Ready))),
        ServerAction::ReadState
    );
    let reply = match session.step(holds(text, freq)) {
        ServerAction::SendReply(reply) => reply,
        other => panic!("no reply but {:?}", other),
    };
    assert_eq!(session.step(ServerEvent::ReplySent(Ok(()))), ServerAction::Pause);
    assert_eq!(session.step(ServerEvent::PauseElapsed), ServerAction::ReadRequest);
    reply
}

#[test]
fn server_answers_with_what_changed() {
    assert_eq!(POLL_INTERVAL_MS, 1000);
    let (mut session, first) = ServerSession::start();
    assert_eq!(first, ServerAction::ReadRequest);
    assert_eq!(
        round(&mut session, Some("HELLO"), Some(500)),
        update(Some("HELLO"), Some(500))
    );
    assert_eq!(round(&mut session, Some("HELLO"), Some(500)), Update::unchanged());
    assert_eq!(round(&mut session, Some("HELLO"), Some(250)), update(None, Some(250)));
    assert_eq!(round(&mut session, Some("BYE"), Some(250)), update(Some("BYE"), None));
    assert_eq!(
        round(&mut session, Some("HELLO"), Some(500)),
        update(Some("HELLO"), Some(500))
    );
    assert!(!session.is_over());
    assert_eq!(session.failure(), None);
}

#[test]
fn server_says_nothing_while_nothing_is_set() {
    let (mut session, _) = ServerSession::start();
    assert_eq!(round(&mut session, None, None), Update::unchanged());
    assert_eq!(round(&mut session, None, Some(50)), update(None, Some(50)));
    assert_eq!(round(&mut session, Some(""), Some(50)), update(Some(""), None));
    assert_eq!(round(&mut session, Some(""), Some(50)), Update::unchanged());
}

#[test]
fn server_sessions_remember_on_their_own() {
    let (mut one, _) = ServerSession::start();
    let (mut other, _) = ServerSession::start();
    assert_eq!(round(&mut one, Some("A"), Some(1)), update(Some("A"), Some(1)));
    assert_eq!(round(&mut one, Some("A"), Some(1)), Update::unchanged());
    assert_eq!(round(&mut other, Some("A"), Some(1)), update(Some("A"), Some(1)));
    one.step(ServerEvent::RequestRead(Err(Error::Transport)));
    assert!(one.is_over());
    assert_eq!(round(&mut other, Some("B"), Some(1)), update(Some("B"), None));
}

#[test]
fn server_closes_on_request() {
    let (mut session, _) = ServerSession::start();
    assert_eq!(
        session.step(ServerEvent::RequestRead(Ok(Request::Close))),
        ServerAction::Stop
    );
    assert!(session.is_over());
    assert_eq!(session.failure(), None);
    assert_eq!(
        session.step(ServerEvent::RequestRead(Ok(Request::Ready))),
        ServerAction::Stop
    );
    assert_eq!(session.failure(), None);
}

#[test]
fn server_stops_on_every_error() {
    let errors = [
        Error::Transport,
        Error::Timeout,
        Error::Framing,
        Error::Decode,
        Error::Encode,
        Error::Protocol,
    ];
    for e in errors {
        let (mut session, _) = ServerSession::start();
        assert_eq!(session.step(ServerEvent::RequestRead(Err(e))), ServerAction::Stop);
        assert_eq!(session.failure(), Some(e));

        let (mut session, _) = ServerSession::start();
        session.step(ServerEvent::RequestRead(Ok(Request::Ready)));
        session.step(holds(None, None));
        assert_eq!(session.step(ServerEvent::ReplySent(Err(e))), ServerAction::Stop);
        assert!(session.is_over());
        assert_eq!(session.failure(), Some(e));
        assert_eq!(session.step(ServerEvent::ReplySent(Ok(()))), ServerAction::Stop);
        assert_eq!(session.step(ServerEvent::PauseElapsed), ServerAction::Stop);
        assert_eq!(session.failure(), Some(e));
    }
}

#[test]
fn server_refuses_events_out_of_turn() {
    let (mut session, _) = ServerSession::start();
    assert_eq!(session.step(holds(None, None)), ServerAction::Stop);
    assert_eq!(session.failure(), Some(Error::Protocol));

    let (mut session, _) = ServerSession::start();
    assert_eq!(session.step(ServerEvent::ReplySent(Ok(()))), ServerAction::Stop);
    assert_eq!(session.failure(), Some(Error::Protocol));

    let (mut session, _) = ServerSession::start();
    assert_eq!(session.step(ServerEvent::PauseElapsed), ServerAction::Stop);
    assert_eq!(session.failure(), Some(Error::Protocol));

    let (mut session, _) = ServerSession::start();
    session.step(ServerEvent::RequestRead(Ok(Request::Ready)));
    assert_eq!(
        session.step(ServerEvent::RequestRead(Ok(Request::Ready))),
        ServerAction::Stop
    );
    assert_eq!(session.failure(), Some(Error::Protocol));

    let (mut session, _) = ServerSession::start();
    session.step(ServerEvent::RequestRead(Ok(Request::Ready)));
    session.step(holds(None, None));
    assert_eq!(session.step(holds(None, None)), ServerAction::Stop);
    assert_eq!(session.failure(), Some(Error::Protocol));

    let (mut session, _) = ServerSession::start();
    session.step(ServerEvent::RequestRead(Ok(Request::Ready)));
    session.step(holds(None, None));
    session.step(ServerEvent::ReplySent(Ok(())));
    assert_eq!(
        session.step(ServerEvent::RequestRead(Ok(Request::Ready))),
        ServerAction::Stop
    );
    assert_eq!(session.failure(), Some(Error::Protocol));
}

#[test]
fn supervisor_walks_the_whole_loop() {
    assert_eq!(BACKOFF_MS, 3000);
    let mut supervisor = Supervisor::new();
    assert_eq!(supervisor.stage(), Stage::Resolve);
    assert_eq!(supervisor.step(Report::Done), (Stage::Connect, Status::Quiet));
    assert_eq!(supervisor.step(Report::Done), (Stage::SecureHandshake, Status::Quiet));
    assert_eq!(supervisor.step(Report::Done), (Stage::RunSession, Status::Established));
    assert_eq!(
        supervisor.step(Report::SessionFailed(Error::Timeout)),
        (Stage::Backoff, Status::SessionError(Error::Timeout))
    );
    assert_eq!(supervisor.step(Report::Done), (Stage::Resolve, Status::Quiet));
    assert_eq!(supervisor.stage(), Stage::Resolve);
}

#[test]
fn supervisor_backs_off_after_every_failure() {
    let mut supervisor = Supervisor::new();
    assert_eq!(supervisor.step(Report::Failed), (Stage::Backoff, Status::ResolveFailed));
    assert_eq!(supervisor.step(Report::Done), (Stage::Resolve, Status::Quiet));
    supervisor.step(Report::Done);
    assert_eq!(supervisor.step(Report::Failed), (Stage::Backoff, Status::ConnectFailed));
    supervisor.step(Report::Done);
    supervisor.step(Report::Done);
    supervisor.step(Report::Done);
    assert_eq!(supervisor.step(Report::Failed), (Stage::Backoff, Status::HandshakeFailed));
    assert_eq!(supervisor.step(Report::Failed), (Stage::Resolve, Status::Quiet));
}

#[test]
fn supervisor_backs_off_after_every_session() {
    for (report, status) in [
        (Report::SessionClosed, Status::Closed),
        (Report::Done, Status::Closed),
        (Report::Failed, Status::SessionError(Error::Transport)),
        (Report::SessionFailed(Error::Decode), Status::SessionError(Error::Decode)),
    ] {
        let mut supervisor = Supervisor::new();
        supervisor.step(Report::Done);
        supervisor.step(Report::Done);
        supervisor.step(Report::Done);
        assert_eq!(supervisor.stage(), Stage::RunSession);
        assert_eq!(supervisor.step(report), (Stage::Backoff, status));
    }
}

#[test]
fn supervisor_counts_a_stray_report_as_a_failure() {
    let mut supervisor = Supervisor::new();
    assert_eq!(
        supervisor.step(Report::SessionClosed),
        (Stage::Backoff, Status::ResolveFailed)
    );
    let mut supervisor = Supervisor::new();
    supervisor.step(Report::Done);
    assert_eq!(
        supervisor.step(Report::SessionFailed(Error::Timeout)),
        (Stage::Backoff, Status::ConnectFailed)
    );
}

#[test]
fn statuses_have_their_texts() {
    assert_eq!(Status::Quiet.message(), "");
    assert_eq!(Status::ResolveFailed.message(), "DNS query failed");
    assert_eq!(Status::ConnectFailed.message(), "Could not connect");
    assert_eq!(Status::HandshakeFailed.message(), "Failed to setup TLS connection");
    assert_eq!(Status::Established.message(), "TLS connection established!");
    assert_eq!(Status::Closed.message(), "Connection closed");
    assert_eq!(Status::SessionError(Error::Timeout).message(), "Timeout");
    assert_eq!(
        Status::SessionError(Error::Decode).message(),
        Error::Decode.message()
    );
}

/// Runs the client's action on the wire and reports its outcome.
fn client_act(
    action: ClientAction,
    wire: MemoryStream,
    slot: &mut LatestSlot<u64>,
    mailbox: &mut Mailbox<String>,
) -> (ClientEvent, MemoryStream) {
    let mut connection = Connection::new(wire);
    let event = match action {
        ClientAction::Send(request) => ClientEvent::Sent(connection.send(&request)),
        ClientAction::Receive => ClientEvent::Received(connection.receive::<Update>()),
        ClientAction::Apply(update) => {
            apply_update(update, slot, mailbox);
            ClientEvent::Applied
        }
        ClientAction::Stop => panic!("the session is over"),
    };
    (event, connection.into_stream())
}

/// Runs the server's action on the wire and reports its outcome.
fn server_act(
    action: ServerAction,
    wire: MemoryStream,
    state: &SharedState,
) -> (ServerEvent, MemoryStream) {
    let mut connection = Connection::new(wire);
    let event = match action {
        ServerAction::ReadRequest => ServerEvent::RequestRead(connection.receive::<Request>()),
        ServerAction::ReadState => ServerEvent::StateRead {
            text: get_text(state),
            freq: get_frequency(state),
        },
        ServerAction::SendReply(update) => ServerEvent::ReplySent(connection.send(&update)),
        ServerAction::Pause => ServerEvent::PauseElapsed,
        ServerAction::Stop => panic!("the session is over"),
    };
    (event, connection.into_stream())
}

/// Lets the client act once on the wire.
fn client_turn(
    client: &mut ClientSession,
    to_do: ClientAction,
    wire: MemoryStream,
    slot: &mut LatestSlot<u64>,
    mailbox: &mut Mailbox<String>,
) -> (ClientAction, MemoryStream) {
    let (event, wire) = client_act(to_do, wire, slot, mailbox);
    (client.step(event), wire)
}

/// Lets the server act once on the wire.
fn server_turn(
    server: &mut ServerSession,
    to_serve: ServerAction,
    wire: MemoryStream,
    state: &SharedState,
) -> (ServerAction, MemoryStream) {
    let (event, wire) = server_act(to_serve, wire, state);
    (server.step(event), wire)
}

#[test]
fn end_to_end_scenario() {
    let mut state = SharedState::new();
    set_text(&mut state, "HELLO");
    set_frequency(&mut state, 500);
    let mut slot = LatestSlot::new();
    let mut mailbox = Mailbox::new();
    let wire = MemoryStream::new();

    let (mut client, to_do) = ClientSession::start();
    let (mut server, to_serve) = ServerSession::start();

    // The client sends Ready.
    assert_eq!(to_do, ClientAction::Send(Request::Ready));
    let (to_do, wire) = client_turn(&mut client, to_do, wire, &mut slot, &mut mailbox);
    assert_eq!(to_do, ClientAction::Receive);

    // The server reads it, reads the store, and replies with both values.
    assert_eq!(to_serve, ServerAction::ReadRequest);
    let (to_serve, wire) = server_turn(&mut server, to_serve, wire, &state);
    assert_eq!(to_serve, ServerAction::ReadState);
    let (to_serve, wire) = server_turn(&mut server, to_serve, wire, &state);
    assert_eq!(
        to_serve,
        ServerAction::SendReply(update(Some("HELLO"), Some(500)))
    );
    let (to_serve, wire) = server_turn(&mut server, to_serve, wire, &state);
    assert_eq!(to_serve, ServerAction::Pause);
    let (to_serve, wire) = server_turn(&mut server, to_serve, wire, &state);

    // The client receives the update and applies it.
    let (to_do, wire) = client_turn(&mut client, to_do, wire, &mut slot, &mut mailbox);
    assert_eq!(to_do, ClientAction::Apply(update(Some("HELLO"), Some(500))));
    let (to_do, wire) = client_turn(&mut client, to_do, wire, &mut slot, &mut mailbox);
    assert_eq!(wire.pending_len(), 0);
    assert_eq!(slot.take(), Some(500));
    assert_eq!(mailbox.len(), 1);
    assert_eq!(mailbox.try_receive(), Some("HELLO".to_string()));

    // The client asks again at once; nothing has changed.
    assert_eq!(to_do, ClientAction::Send(Request::Ready));
    let (to_do, wire) = client_turn(&mut client, to_do, wire, &mut slot, &mut mailbox);
    assert_eq!(to_serve, ServerAction::ReadRequest);
    let (to_serve, wire) = server_turn(&mut server, to_serve, wire, &state);
    let (to_serve, wire) = server_turn(&mut server, to_serve, wire, &state);
    assert_eq!(to_serve, ServerAction::SendReply(Update::unchanged()));
    let (to_serve, wire) = server_turn(&mut server, to_serve, wire, &state);
    let (to_serve, wire) = server_turn(&mut server, to_serve, wire, &state);
    assert_eq!(to_serve, ServerAction::ReadRequest);

    // The second reply leaves both relay primitives untouched.
    let (to_do, wire) = client_turn(&mut client, to_do, wire, &mut slot, &mut mailbox);
    assert_eq!(to_do, ClientAction::Apply(Update::unchanged()));
    let (to_do, wire) = client_turn(&mut client, to_do, wire, &mut slot, &mut mailbox);
    assert_eq!(to_do, ClientAction::Send(Request::Ready));
    assert_eq!(slot.take(), None);
    assert_eq!(mailbox.len(), 0);
    assert_eq!(mailbox.try_receive(), None);
    assert_eq!(wire.pending_len(), 0);
    assert!(!client.is_over());
    assert!(!server.is_over());
}

#[test]
fn change_between_requests_is_told_once() {
    let mut state = SharedState::new();
    set_frequency(&mut state, 100);
    let mut slot = LatestSlot::new();
    let mut mailbox = Mailbox::new();
    let (mut client, mut to_do) = ClientSession::start();
    let (mut server, mut to_serve) = ServerSession::start();
    let mut wire = MemoryStream::new();
    let mut seen = Vec::new();
    for round in 0..4 {
        if round == 2 {
            set_text(&mut state, "late news \u{2603}");
            set_frequency(&mut state, 9000);
        }
        (to_do, wire) = client_turn(&mut client, to_do, wire, &mut slot, &mut mailbox);
        for _ in 0..4 {
            (to_serve, wire) = server_turn(&mut server, to_serve, wire, &state);
        }
        (to_do, wire) = client_turn(&mut client, to_do, wire, &mut slot, &mut mailbox);
        (to_do, wire) = client_turn(&mut client, to_do, wire, &mut slot, &mut mailbox);
        seen.push((slot.take(), mailbox.try_receive()));
    }
    assert_eq!(
        seen,
        vec![
            (Some(100), None),
            (None, None),
            (Some(9000), Some("late news ".to_string())),
            (None, None),
        ]
    );
    assert_eq!(to_do, ClientAction::Send(Request::Ready));
    assert_eq!(to_serve, ServerAction::ReadRequest);
}

#[test]
fn close_ends_both_sides() {
    let state = SharedState::new();
    let mut slot = LatestSlot::new();
    let mut mailbox = Mailbox::new();
    let (mut client, to_do) = ClientSession::start();
    let (mut server, mut to_serve) = ServerSession::start();
    client.request_close();

    let (to_do, mut wire) =
        client_turn(&mut client, to_do, MemoryStream::new(), &mut slot, &mut mailbox);
    for _ in 0..4 {
        (to_serve, wire) = server_turn(&mut server, to_serve, wire, &state);
    }
    let (to_do, wire) = client_turn(&mut client, to_do, wire, &mut slot, &mut mailbox);
    let (to_do, wire) = client_turn(&mut client, to_do, wire, &mut slot, &mut mailbox);

    assert_eq!(to_do, ClientAction::Send(Request::Close));
    let (to_do, wire) = client_turn(&mut client, to_do, wire, &mut slot, &mut mailbox);
    assert_eq!(to_do, ClientAction::Stop);
    assert!(client.is_over());
    assert_eq!(client.failure(), None);

    let (event, wire) = server_act(to_serve, wire, &state);
    assert_eq!(event, ServerEvent::RequestRead(Ok(Request::Close)));
    assert_eq!(server.step(event), ServerAction::Stop);
    assert!(server.is_over());
    assert_eq!(server.failure(), None);
    assert_eq!(wire.pending_len(), 0);
}

/// Races `operation` against a timer, as a driver does.
fn raced<V>(
    operation: impl std::future::Future<Output = Result<V, Error>>,
    limit: std::time::Duration,
) -> FirstOrSecond<Result<V, Error>, ()> {
    let runtime = tokio::runtime::Builder::new_current_thread()
        .enable_time()
        .build()
        .expect("runtime");
    runtime.block_on(async {
        let operation = Box::pin(operation);
        let timer = Box::pin(tokio::time::sleep(limit));
        match embassy_futures::select::select(operation, timer).await {
            embassy_futures::select::Either::First(result) => FirstOrSecond::First(result),
            embassy_futures::select::Either::Second(()) => FirstOrSecond::Second(()),
        }
    })
}

#[test]
fn operation_that_never_completes_times_out() {
    let limit = std::time::Duration::from_millis(50);
    let started = std::time::Instant::now();
    let outcome = raced(std::future::pending::<Result<Update, Error>>(), limit);
    let elapsed = started.elapsed();
    assert_eq!(outcome, FirstOrSecond::Second(()));
    assert!(elapsed >= limit);
    assert!(elapsed < std::time::Duration::from_millis(2000));

    let (mut session, _) = ClientSession::start();
    session.step(ClientEvent::Sent(Ok(())));
    assert_eq!(
        session.step(ClientEvent::Received(wait_timeout(outcome))),
        ClientAction::Stop
    );
    assert_eq!(session.failure(), Some(Error::Timeout));

    // What the abandoned operation might still yield changes nothing.
    assert_eq!(
        session.step(ClientEvent::Received(Ok(update(Some("late"), Some(1))))),
        ClientAction::Stop
    );
    assert_eq!(session.failure(), Some(Error::Timeout));
}

#[test]
fn operation_that_completes_in_time_keeps_its_result() {
    let limit = std::time::Duration::from_millis(2000);
    let outcome = raced(std::future::ready(Ok(update(None, Some(7)))), limit);
    assert_eq!(wait_timeout(outcome), Ok(update(None, Some(7))));
    let outcome = raced(std::future::ready(Err::<Update, Error>(Error::Decode)), limit);
    assert_eq!(wait_timeout(outcome), Err(Error::Decode));
}
