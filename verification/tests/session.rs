use theater_client::codec::ProtocolError;
use theater_client::protocol::{
    ChannelParticipant, FrontendCommand, FrontendMessage, ManagementCommand, ManagementResponse,
    OperationSummary, OperationType,
};
use theater_client::session::{
    hello, open_channel, open_request, Action, Event, Exit, Inbound, OpenError, Phase, Session,
    SessionClosed, SessionError, TransportError, QUEUE_CAPACITY,
};

fn opened(channel_id: &str) -> Inbound {
    Inbound::Response(ManagementResponse::ChannelOpened {
        channel_id: channel_id.to_string(),
        participant: ChannelParticipant::Actor("a1".to_string()),
    })
}

fn session_on(channel_id: &str) -> Session {
    Session::open(opened(channel_id)).unwrap()
}

fn command(command: FrontendCommand, payload: &[u8]) -> Event {
    Event::Command { command, payload: Some(payload.to_vec()) }
}

fn channel_message(channel_id: &str, payload: &[u8]) -> Event {
    Event::Inbound(Inbound::Response(ManagementResponse::ChannelMessage {
        channel_id: channel_id.to_string(),
        sender: ChannelParticipant::Actor("a1".to_string()),
        message: payload.to_vec(),
    }))
}

fn envelope(channel_id: &str, payload: &[u8]) -> Action {
    Action::Send(ManagementCommand::SendOnChannel {
        channel_id: channel_id.to_string(),
        message: payload.to_vec(),
    })
}

fn close_request(channel_id: &str) -> Action {
    Action::Send(ManagementCommand::CloseChannel { channel_id: channel_id.to_string() })
}

fn status_message() -> FrontendMessage {
    FrontendMessage::Status { child_running: true, active_operations: Vec::new() }
}

#[test]
fn hello_is_the_frontend_greeting() {
    assert_eq!(hello().unwrap(), b"{\"client_type\":\"frontend\"}".to_vec());
}

#[test]
fn hello_is_the_same_every_time() {
    assert_eq!(hello(), hello());
    assert!(hello().is_ok());
}

#[test]
fn open_request_targets_the_actor() {
    assert_eq!(
        open_request("a1", vec![1, 2, 3]),
        ManagementCommand::OpenChannel {
            target: ChannelParticipant::Actor("a1".to_string()),
            initial_message: vec![1, 2, 3],
        }
    );
}

#[test]
fn open_channel_greets_as_frontend() {
    assert_eq!(
        open_channel("manager-7").unwrap(),
        ManagementCommand::OpenChannel {
            target: ChannelParticipant::Actor("manager-7".to_string()),
            initial_message: b"{\"client_type\":\"frontend\"}".to_vec(),
        }
    );
}

#[test]
fn handshake_success_binds_the_channel_id() {
    let session = Session::open(opened("c1")).unwrap();
    assert_eq!(session.channel_id(), "c1");
    assert_eq!(session.phase(), Phase::Open);
}

#[test]
fn handshake_rejection_carries_the_server_message() {
    let reply =
        Inbound::Response(ManagementResponse::Error { message: "actor not found".to_string() });
    assert_eq!(
        Session::open(reply).err(),
        Some(OpenError::Rejected("actor not found".to_string()))
    );
}

#[test]
fn handshake_fails_on_any_other_response() {
    let replies = vec![
        ManagementResponse::StoreCreated { store_id: "s".to_string() },
        ManagementResponse::ActorStarted { id: "a".to_string() },
        ManagementResponse::RequestedMessage { id: "a".to_string(), message: vec![1] },
        ManagementResponse::MessageSent { channel_id: "c1".to_string() },
        ManagementResponse::ChannelMessage {
            channel_id: "c1".to_string(),
            sender: ChannelParticipant::External,
            message: vec![],
        },
        ManagementResponse::ChannelClosed { channel_id: "c1".to_string() },
    ];
    for reply in replies {
        assert_eq!(
            Session::open(Inbound::Response(reply)).err(),
            Some(OpenError::UnexpectedResponse)
        );
    }
}

#[test]
fn handshake_fails_on_unparseable_reply() {
    assert_eq!(Session::open(Inbound::Malformed).err(), Some(OpenError::UnexpectedResponse));
}

#[test]
fn handshake_fails_on_end_of_stream() {
    assert_eq!(Session::open(Inbound::EndOfStream).err(), Some(OpenError::ConnectionClosed));
}

#[test]
fn handshake_fails_on_transport_error() {
    for error in [TransportError::FrameTooLarge, TransportError::Truncated, TransportError::Io] {
        assert_eq!(
            Session::open(Inbound::Failed(error)).err(),
            Some(OpenError::Transport(error))
        );
    }
}

#[test]
fn command_is_wrapped_for_the_channel() {
    let mut session = session_on("c1");
    assert_eq!(
        session.step(command(FrontendCommand::GetStatus, b"\"GetStatus\"")),
        Ok(envelope("c1", b"\"GetStatus\""))
    );
    assert_eq!(session.phase(), Phase::Open);
    assert_eq!(session.step(Event::Sent), Ok(Action::Wait));
}

#[test]
fn fifo_preservation() {
    let mut session = session_on("c1");
    let actions = session.run(vec![
        command(FrontendCommand::StartActor, b"A"),
        command(FrontendCommand::BuildActor, b"B"),
        command(FrontendCommand::StopActor, b"C"),
    ]);
    assert_eq!(actions, vec![envelope("c1", b"A"), envelope("c1", b"B"), envelope("c1", b"C")]);
    assert_eq!(session.phase(), Phase::Open);
}

#[test]
fn fifo_preservation_with_interleaved_traffic() {
    let mut session = session_on("c1");
    let actions = session.run(vec![
        command(FrontendCommand::StartActor, b"A"),
        Event::Sent,
        channel_message("c1", b"m1"),
        Event::Decoded(Some(status_message())),
        command(FrontendCommand::BuildActor, b"B"),
        Event::Inbound(Inbound::Malformed),
        channel_message("c1", b"m2"),
        command(FrontendCommand::StopActor, b"C"),
        Event::Decoded(None),
    ]);
    let sent: Vec<&Action> = actions.iter().filter(|a| matches!(a, Action::Send(_))).collect();
    assert_eq!(sent, vec![&envelope("c1", b"A"), &envelope("c1", b"B"), &envelope("c1", b"C")]);
    let decoded: Vec<&Action> = actions.iter().filter(|a| matches!(a, Action::Decode(_))).collect();
    assert_eq!(decoded, vec![&Action::Decode(b"m1".to_vec()), &Action::Decode(b"m2".to_vec())]);
}

#[test]
fn disconnect_sequencing() {
    let mut session = session_on("c1");
    let actions = session.run(vec![
        Event::Command { command: FrontendCommand::Disconnect, payload: None },
        Event::Sent,
        command(FrontendCommand::GetStatus, b"late"),
        command(FrontendCommand::Disconnect, b"again"),
    ]);
    assert_eq!(actions, vec![close_request("c1"), Action::Stop(Exit::Normal)]);
    assert_eq!(session.phase(), Phase::Closed(Exit::Normal));
    assert_eq!(session.step(command(FrontendCommand::GetStatus, b"x")), Err(SessionClosed));
}

#[test]
fn disconnect_ignores_its_payload() {
    let mut session = session_on("c9");
    assert_eq!(
        session.step(command(FrontendCommand::Disconnect, b"\"Disconnect\"")),
        Ok(close_request("c9"))
    );
    assert_eq!(session.phase(), Phase::Closing);
}

#[test]
fn commands_are_refused_while_closing() {
    let mut session = session_on("c1");
    session.step(command(FrontendCommand::Disconnect, b"")).unwrap();
    assert_eq!(session.step(command(FrontendCommand::GetStatus, b"x")), Err(SessionClosed));
    assert_eq!(session.step(channel_message("c1", b"m")), Err(SessionClosed));
    assert_eq!(session.phase(), Phase::Closing);
    assert_eq!(session.step(Event::Sent), Ok(Action::Stop(Exit::Normal)));
}

#[test]
fn failed_close_request_ends_with_an_error() {
    let mut session = session_on("c1");
    session.step(command(FrontendCommand::Disconnect, b"")).unwrap();
    let failed = Exit::Failed(SessionError::Transport(TransportError::Io));
    assert_eq!(session.step(Event::SendFailed), Ok(Action::Stop(failed)));
    assert_eq!(session.phase(), Phase::Closed(failed));
}

#[test]
fn send_failure_is_fatal() {
    let mut session = session_on("c1");
    session.step(command(FrontendCommand::GetStatus, b"x")).unwrap();
    let failed = Exit::Failed(SessionError::Transport(TransportError::Io));
    assert_eq!(session.step(Event::SendFailed), Ok(Action::Stop(failed)));
    assert_eq!(session.step(Event::Sent), Err(SessionClosed));
}

#[test]
fn unencodable_command_is_fatal() {
    let mut session = session_on("c1");
    let failed = Exit::Failed(SessionError::Encode);
    assert_eq!(
        session.step(Event::Command { command: FrontendCommand::GetStatus, payload: None }),
        Ok(Action::Stop(failed))
    );
    assert_eq!(session.phase(), Phase::Closed(failed));
}

#[test]
fn channel_message_is_handed_out_for_decoding() {
    let mut session = session_on("c1");
    assert_eq!(session.step(channel_message("c1", b"body")), Ok(Action::Decode(b"body".to_vec())));
    assert_eq!(
        session.step(Event::Decoded(Some(status_message()))),
        Ok(Action::Deliver(status_message()))
    );
}

#[test]
fn malformed_payload_tolerance() {
    let mut session = session_on("c1");
    let good = FrontendMessage::ChildStarted { child_id: "k".to_string() };
    let actions = session.run(vec![
        channel_message("c1", b"not json"),
        Event::Decoded(None),
        channel_message("c1", b"{\"ChildStarted\":{\"child_id\":\"k\"}}"),
        Event::Decoded(Some(good.clone())),
    ]);
    assert_eq!(
        actions,
        vec![
            Action::Decode(b"not json".to_vec()),
            Action::Wait,
            Action::Decode(b"{\"ChildStarted\":{\"child_id\":\"k\"}}".to_vec()),
            Action::Deliver(good),
        ]
    );
    assert_eq!(session.phase(), Phase::Open);
}

#[test]
fn channel_id_isolation() {
    let mut session = session_on("c1");
    assert_eq!(session.step(channel_message("c2", b"foreign")), Ok(Action::Wait));
    assert_eq!(session.step(channel_message("", b"foreign")), Ok(Action::Wait));
    assert_eq!(session.step(channel_message("c10", b"foreign")), Ok(Action::Wait));
    assert_eq!(session.phase(), Phase::Open);
}

#[test]
fn foreign_channel_closed_is_ignored() {
    let mut session = session_on("c1");
    let notice = Event::Inbound(Inbound::Response(ManagementResponse::ChannelClosed {
        channel_id: "other".to_string(),
    }));
    assert_eq!(session.step(notice), Ok(Action::Wait));
    assert_eq!(session.phase(), Phase::Open);
}

#[test]
fn channel_closed_ends_the_session_normally() {
    let mut session = session_on("c1");
    let notice = Event::Inbound(Inbound::Response(ManagementResponse::ChannelClosed {
        channel_id: "c1".to_string(),
    }));
    assert_eq!(session.step(notice), Ok(Action::Stop(Exit::Normal)));
    assert_eq!(session.phase(), Phase::Closed(Exit::Normal));
    assert_eq!(session.step(command(FrontendCommand::GetStatus, b"x")), Err(SessionClosed));
}

#[test]
fn other_responses_are_ignored() {
    let mut session = session_on("c1");
    let responses = vec![
        ManagementResponse::StoreCreated { store_id: "s".to_string() },
        ManagementResponse::ActorStarted { id: "a".to_string() },
        ManagementResponse::RequestedMessage { id: "a".to_string(), message: vec![] },
        ManagementResponse::ChannelOpened {
            channel_id: "c2".to_string(),
            participant: ChannelParticipant::External,
        },
        ManagementResponse::MessageSent { channel_id: "c1".to_string() },
        ManagementResponse::Error { message: "oops".to_string() },
    ];
    for response in responses {
        assert_eq!(session.step(Event::Inbound(Inbound::Response(response))), Ok(Action::Wait));
    }
    assert_eq!(session.step(Event::Inbound(Inbound::Malformed)), Ok(Action::Wait));
    assert_eq!(session.phase(), Phase::Open);
    assert_eq!(session.channel_id(), "c1");
}

#[test]
fn end_of_stream_ends_the_session_with_an_error() {
    let mut session = session_on("c1");
    let failed = Exit::Failed(SessionError::ConnectionClosed);
    assert_eq!(session.step(Event::Inbound(Inbound::EndOfStream)), Ok(Action::Stop(failed)));
    assert_eq!(session.phase(), Phase::Closed(failed));
}

#[test]
fn frame_errors_end_the_session_with_an_error() {
    for error in [TransportError::FrameTooLarge, TransportError::Truncated, TransportError::Io] {
        let mut session = session_on("c1");
        let failed = Exit::Failed(SessionError::Transport(error));
        assert_eq!(session.step(Event::Inbound(Inbound::Failed(error))), Ok(Action::Stop(failed)));
        assert_eq!(session.step(Event::Sent), Err(SessionClosed));
    }
}

#[test]
fn closed_message_queue_ends_the_session() {
    let mut session = session_on("c1");
    let failed = Exit::Failed(SessionError::ConsumerClosed);
    assert_eq!(session.step(Event::ConsumerClosed), Ok(Action::Stop(failed)));
    assert_eq!(session.phase(), Phase::Closed(failed));
}

#[test]
fn channel_id_never_changes() {
    let mut session = session_on("c1");
    session.run(vec![
        command(FrontendCommand::GetStatus, b"x"),
        Event::Inbound(Inbound::Response(ManagementResponse::ChannelOpened {
            channel_id: "c2".to_string(),
            participant: ChannelParticipant::External,
        })),
        channel_message("c2", b"m"),
        Event::Command { command: FrontendCommand::Disconnect, payload: None },
        Event::Sent,
        Event::Sent,
    ]);
    assert_eq!(session.channel_id(), "c1");
}

#[test]
fn run_of_nothing_does_nothing() {
    let mut session = session_on("c1");
    assert_eq!(session.run(Vec::new()), Vec::<Action>::new());
    assert_eq!(session.phase(), Phase::Open);
}

#[test]
fn end_to_end_scenario() {
    let request = open_channel("a1").unwrap();
    assert!(matches!(
        &request,
        ManagementCommand::OpenChannel { target: ChannelParticipant::Actor(id), .. } if id == "a1"
    ));
    let mut session = Session::open(opened("c1")).unwrap();
    let status = status_message();
    let wire = b"{\"Status\":{\"child_running\":true,\"active_operations\":[]}}";
    let actions = session.run(vec![
        command(FrontendCommand::GetStatus, b"\"GetStatus\""),
        Event::Sent,
        channel_message("c1", wire),
        Event::Decoded(Some(status.clone())),
    ]);
    assert_eq!(
        actions,
        vec![
            envelope("c1", b"\"GetStatus\""),
            Action::Wait,
            Action::Decode(wire.to_vec()),
            Action::Deliver(status.clone()),
        ]
    );
    let delivered: Vec<&Action> =
        actions.iter().filter(|a| matches!(a, Action::Deliver(_))).collect();
    assert_eq!(delivered, vec![&Action::Deliver(status)]);
    assert_eq!(session.phase(), Phase::Open);
}

#[test]
fn delivered_messages_keep_their_content() {
    let mut session = session_on("c1");
    let message = FrontendMessage::Status {
        child_running: false,
        active_operations: vec![OperationSummary {
            operation_id: "op-1".to_string(),
            operation_type: OperationType::Build,
            description: "build it".to_string(),
        }],
    };
    assert_eq!(
        session.step(Event::Decoded(Some(message.clone()))),
        Ok(Action::Deliver(message))
    );
}

#[test]
fn exit_code_is_zero_only_after_a_normal_end() {
    assert_eq!(Exit::Normal.code(), 0);
    assert_eq!(Exit::Failed(SessionError::ConnectionClosed).code(), 1);
    assert_eq!(Exit::Failed(SessionError::Transport(TransportError::Io)).code(), 1);
    assert_eq!(Exit::Failed(SessionError::Encode).code(), 1);
    assert_eq!(Exit::Failed(SessionError::ConsumerClosed).code(), 1);
}

#[test]
fn queues_hold_thirty_two_items() {
    assert_eq!(QUEUE_CAPACITY, 32);
}

#[test]
fn framing_violations_are_transport_errors() {
    assert_eq!(
        TransportError::from_protocol(ProtocolError::FrameTooLarge),
        TransportError::FrameTooLarge
    );
    assert_eq!(TransportError::from_protocol(ProtocolError::Truncated), TransportError::Truncated);
}

#[test]
fn open_error_messages() {
    assert_eq!(
        OpenError::Rejected("actor not found".to_string()).message(),
        "Failed to open channel: actor not found"
    );
    assert_eq!(OpenError::UnexpectedResponse.message(), "Unexpected response");
    assert_eq!(OpenError::ConnectionClosed.message(), "Connection closed");
    assert_eq!(
        OpenError::Transport(TransportError::Truncated).message(),
        "Connection failed: bytes remaining on stream"
    );
}

#[test]
fn session_error_messages() {
    assert_eq!(SessionError::ConnectionClosed.message(), "Connection closed");
    assert_eq!(
        SessionError::Transport(TransportError::FrameTooLarge).message(),
        "Frame error: frame size too big"
    );
    assert_eq!(
        SessionError::Transport(TransportError::Io).message(),
        "Frame error: connection failed"
    );
    assert_eq!(SessionError::Encode.message(), "Command could not be encoded");
    assert_eq!(SessionError::ConsumerClosed.message(), "Message queue closed");
    assert_eq!(SessionClosed.message(), "channel closed");
}

#[test]
fn transport_error_messages() {
    assert_eq!(TransportError::FrameTooLarge.message(), "frame size too big");
    assert_eq!(TransportError::Truncated.message(), "bytes remaining on stream");
    assert_eq!(TransportError::Io.message(), "connection failed");
    assert_eq!(ProtocolError::FrameTooLarge.message(), "frame size too big");
    assert_eq!(ProtocolError::Truncated.message(), "bytes remaining on stream");
}
