//! The channel session: the handshake that opens the one logical channel of
//! a connection, and the decisions of the event loop that runs it afterwards.
//!
//! The session performs no I/O. The caller owns the connection and the two
//! queues of the front-end bridge; it reports what happened as an [`Event`]
//! and carries out the [`Action`] that the session answers with.

use crate::codec::ProtocolError;
use crate::json::{object, object_json, EncodeError};
use crate::protocol::{
    ChannelParticipant, ChannelParticipantView, FrontendCommand, FrontendCommandView,
    FrontendMessage, FrontendMessageView, ManagementCommand, ManagementCommandView,
    ManagementResponse, ManagementResponseView,
};
use vstd::prelude::*;
use vstd::string::StringExecFns;

verus! {

/// Capacity of each of the two queues between the front end and the
/// session: commands in, messages out.
pub const QUEUE_CAPACITY: usize = 32;

/// A failure of the connection underneath the session.
#[derive(Clone, Copy, Debug, PartialEq, Eq, Structural)]
pub enum TransportError {
    /// A frame declared more than the frame limit.
    FrameTooLarge,
    /// The stream ended inside a frame.
    Truncated,
    /// Reading from or writing to the connection failed.
    Io,
}

impl TransportError {
    /// The transport error that a violation of the framing amounts to.
    pub open spec fn of_protocol(error: ProtocolError) -> TransportError {
        match error {
            ProtocolError::FrameTooLarge => TransportError::FrameTooLarge,
            ProtocolError::Truncated => TransportError::Truncated,
        }
    }

    /// The transport error that a violation of the framing amounts to.
    pub fn from_protocol(error: ProtocolError) -> (r: TransportError)
        ensures
            r == TransportError::of_protocol(error),
    {
        match error {
            ProtocolError::FrameTooLarge => TransportError::FrameTooLarge,
            ProtocolError::Truncated => TransportError::Truncated,
        }
    }

    /// What the user is told.
    pub open spec fn text(self) -> Seq<char> {
        match self {
            TransportError::FrameTooLarge => ProtocolError::FrameTooLarge.text(),
            TransportError::Truncated => ProtocolError::Truncated.text(),
            TransportError::Io => "connection failed"@,
        }
    }

    /// What the user is told.
    pub fn message(&self) -> (message: String)
        ensures
            message@ == self.text(),
    {
        match self {
            TransportError::FrameTooLarge => ProtocolError::FrameTooLarge.message(),
            TransportError::Truncated => ProtocolError::Truncated.message(),
            TransportError::Io => "connection failed".to_owned(),
        }
    }
}

/// Why a running session came to an end before it was closed.
#[derive(Clone, Copy, Debug, PartialEq, Eq, Structural)]
pub enum SessionError {
    /// The server closed the connection.
    ConnectionClosed,
    /// The connection failed.
    Transport(TransportError),
    /// A command could not be turned into a payload.
    Encode,
    /// Nobody reads the message queue any more.
    ConsumerClosed,
}

impl SessionError {
    /// What the user is told.
    pub open spec fn text(self) -> Seq<char> {
        match self {
            SessionError::ConnectionClosed => "Connection closed"@,
            SessionError::Transport(error) => "Frame error: "@ + error.text(),
            SessionError::Encode => "Command could not be encoded"@,
            SessionError::ConsumerClosed => "Message queue closed"@,
        }
    }

    /// What the user is told.
    pub fn message(&self) -> (message: String)
        ensures
            message@ == self.text(),
    {
        match self {
            SessionError::ConnectionClosed => "Connection closed".to_owned(),
            SessionError::Transport(error) => {
                let mut message = String::from_str("Frame error: ");
                message.append(error.message().as_str());
                message
            },
            SessionError::Encode => "Command could not be encoded".to_owned(),
            SessionError::ConsumerClosed => "Message queue closed".to_owned(),
        }
    }
}

/// How a session ended.
#[derive(Clone, Copy, Debug, PartialEq, Eq, Structural)]
pub enum Exit {
    /// The channel was closed, by the server or on the user's request.
    Normal,
    /// The session could not go on.
    Failed(SessionError),
}

impl Exit {
    /// The exit code of the process that ran the session: zero after a
    /// normal end, one after a failure.
    pub open spec fn code_spec(self) -> u8 {
        match self {
            Exit::Normal => 0,
            Exit::Failed(_) => 1,
        }
    }

    /// The exit code of the process that ran the session.
    pub fn code(self) -> (code: u8)
        ensures
            code == self.code_spec(),
    {
        match self {
            Exit::Normal => 0,
            Exit::Failed(_) => 1,
        }
    }
}

/// The session has ended and takes no more events.
#[derive(Clone, Copy, Debug, PartialEq, Eq, Structural)]
pub struct SessionClosed;

impl SessionClosed {
    /// What the user is told.
    pub open spec fn text(self) -> Seq<char> {
        "channel closed"@
    }

    /// What the user is told.
    pub fn message(&self) -> (message: String)
        ensures
            message@ == self.text(),
    {
        "channel closed".to_owned()
    }
}

/// Where a session stands.
#[derive(Clone, Copy, Debug, PartialEq, Eq, Structural)]
pub enum Phase {
    /// The channel is open and the event loop runs.
    Open,
    /// The request to close the channel has been handed out and is on its way.
    Closing,
    /// The event loop has stopped.
    Closed(Exit),
}

/// Why a channel could not be opened.
#[derive(Clone, Debug, PartialEq, Eq)]
pub enum OpenError {
    /// The server answered with an error; this is its message.
    Rejected(String),
    /// The server answered with something other than an opened channel.
    UnexpectedResponse,
    /// The connection ended before an answer came.
    ConnectionClosed,
    /// The connection failed before an answer came.
    Transport(TransportError),
}

/// The view of [`OpenError`].
pub enum OpenErrorView {
    Rejected(Seq<char>),
    UnexpectedResponse,
    ConnectionClosed,
    Transport(TransportError),
}

impl View for OpenError {
    type V = OpenErrorView;

    open spec fn view(&self) -> OpenErrorView {
        match self {
            OpenError::Rejected(message) => OpenErrorView::Rejected(message@),
            OpenError::UnexpectedResponse => OpenErrorView::UnexpectedResponse,
            OpenError::ConnectionClosed => OpenErrorView::ConnectionClosed,
            OpenError::Transport(error) => OpenErrorView::Transport(*error),
        }
    }
}

impl OpenErrorView {
    /// What the user is told.
    pub open spec fn text(self) -> Seq<char> {
        match self {
            OpenErrorView::Rejected(message) => "Failed to open channel: "@ + message,
            OpenErrorView::UnexpectedResponse => "Unexpected response"@,
            OpenErrorView::ConnectionClosed => "Connection closed"@,
            OpenErrorView::Transport(error) => "Connection failed: "@ + error.text(),
        }
    }
}

impl OpenError {
    /// What the user is told.
    pub fn message(&self) -> (message: String)
        ensures
            message@ == self@.text(),
    {
        match self {
            OpenError::Rejected(reason) => {
                let mut message = String::from_str("Failed to open channel: ");
                message.append(reason.as_str());
                message
            },
            OpenError::UnexpectedResponse => "Unexpected response".to_owned(),
            OpenError::ConnectionClosed => "Connection closed".to_owned(),
            OpenError::Transport(error) => {
                let mut message = String::from_str("Connection failed: ");
                message.append(error.message().as_str());
                message
            },
        }
    }
}

/// What the connection produced when the client waited for a frame.
#[derive(Clone, Debug, PartialEq, Eq)]
pub enum Inbound {
    /// A frame that holds a response.
    Response(ManagementResponse),
    /// A frame that holds no response the client knows.
    Malformed,
    /// The server closed the connection.
    EndOfStream,
    /// The connection failed.
    Failed(TransportError),
}

/// The view of [`Inbound`].
pub enum InboundView {
    Response(ManagementResponseView),
    Malformed,
    EndOfStream,
    Failed(TransportError),
}

impl View for Inbound {
    type V = InboundView;

    open spec fn view(&self) -> InboundView {
        match self {
            Inbound::Response(response) => InboundView::Response(response@),
            Inbound::Malformed => InboundView::Malformed,
            Inbound::EndOfStream => InboundView::EndOfStream,
            Inbound::Failed(error) => InboundView::Failed(*error),
        }
    }
}

/// Something the event loop has to react to.
#[derive(Clone, Debug, PartialEq, Eq)]
pub enum Event {
    /// A command came off the command queue. `payload` is the command as the
    /// channel carries it, or `None` if it could not be encoded.
    Command { command: FrontendCommand, payload: Option<Vec<u8>> },
    /// The connection produced something.
    Inbound(Inbound),
    /// The payload handed out by [`Action::Decode`] was decoded; `None` if it
    /// holds no message the client knows.
    Decoded(Option<FrontendMessage>),
    /// The command handed out by [`Action::Send`] was written.
    Sent,
    /// The command handed out by [`Action::Send`] could not be written.
    SendFailed,
    /// The message handed out by [`Action::Deliver`] found the message queue
    /// closed.
    ConsumerClosed,
}

/// The view of [`Event`].
pub enum EventView {
    Command { command: FrontendCommandView, payload: Option<Seq<u8>> },
    Inbound(InboundView),
    Decoded(Option<FrontendMessageView>),
    Sent,
    SendFailed,
    ConsumerClosed,
}

impl View for Event {
    type V = EventView;

    open spec fn view(&self) -> EventView {
        match self {
            Event::Command { command, payload } => EventView::Command {
                command: command@,
                payload: match payload {
                    Some(bytes) => Some(bytes@),
                    None => None,
                },
            },
            Event::Inbound(inbound) => EventView::Inbound(inbound@),
            Event::Decoded(message) => EventView::Decoded(
                match message {
                    Some(message) => Some(message@),
                    None => None,
                },
            ),
            Event::Sent => EventView::Sent,
            Event::SendFailed => EventView::SendFailed,
            Event::ConsumerClosed => EventView::ConsumerClosed,
        }
    }
}

/// What the caller has to do next.
#[derive(Clone, Debug, PartialEq, Eq)]
pub enum Action {
    /// Nothing; wait for the next event.
    Wait,
    /// Write this command to the connection, then report `Sent` or
    /// `SendFailed`.
    Send(ManagementCommand),
    /// Decode this payload as a front-end message, then report `Decoded`.
    Decode(Vec<u8>),
    /// Put this message on the message queue.
    Deliver(FrontendMessage),
    /// Stop the event loop and close both queues.
    Stop(Exit),
}

/// The view of [`Action`].
pub enum ActionView {
    Wait,
    Send(ManagementCommandView),
    Decode(Seq<u8>),
    Deliver(FrontendMessageView),
    Stop(Exit),
}

impl View for Action {
    type V = ActionView;

    open spec fn view(&self) -> ActionView {
        match self {
            Action::Wait => ActionView::Wait,
            Action::Send(command) => ActionView::Send(command@),
            Action::Decode(payload) => ActionView::Decode(payload@),
            Action::Deliver(message) => ActionView::Deliver(message@),
            Action::Stop(exit) => ActionView::Stop(*exit),
        }
    }
}

/// What a list of actions holds, in order.
pub open spec fn actions_of(actions: Seq<Action>) -> Seq<ActionView> {
    actions.map_values(|action: Action| action@)
}

/// What a list of events holds, in order.
pub open spec fn events_of(events: Seq<Event>) -> Seq<EventView> {
    events.map_values(|event: Event| event@)
}

/// The state of a session: the channel it is bound to, and where it stands.
pub struct SessionView {
    pub channel_id: Seq<char>,
    pub phase: Phase,
}

/// The request that opens a channel to `actor_id` with `initial_message`.
pub open spec fn open_request_spec(
    actor_id: Seq<char>,
    initial_message: Seq<u8>,
) -> ManagementCommandView {
    ManagementCommandView::OpenChannel {
        target: ChannelParticipantView::Actor(actor_id),
        initial_message,
    }
}

/// The outcome of the handshake, given what came back for the open request.
pub open spec fn open_spec(reply: InboundView) -> Result<SessionView, OpenErrorView> {
    match reply {
        InboundView::Response(ManagementResponseView::ChannelOpened { channel_id, .. }) => Ok(
            SessionView { channel_id, phase: Phase::Open },
        ),
        InboundView::Response(ManagementResponseView::Error { message }) => Err(
            OpenErrorView::Rejected(message),
        ),
        InboundView::Response(_) => Err(OpenErrorView::UnexpectedResponse),
        InboundView::Malformed => Err(OpenErrorView::UnexpectedResponse),
        InboundView::EndOfStream => Err(OpenErrorView::ConnectionClosed),
        InboundView::Failed(error) => Err(OpenErrorView::Transport(error)),
    }
}

/// The session after it has stopped with `exit`, and the action that says so.
pub open spec fn stop_spec(s: SessionView, exit: Exit) -> (
    SessionView,
    Result<ActionView, SessionClosed>,
) {
    (
        SessionView { channel_id: s.channel_id, phase: Phase::Closed(exit) },
        Ok(ActionView::Stop(exit)),
    )
}

/// One turn of the event loop: the session after `event`, and what to do.
///
/// A session that has stopped refuses every event. A session that is closing
/// waits only for the fate of the close request.
pub open spec fn step_spec(s: SessionView, event: EventView) -> (
    SessionView,
    Result<ActionView, SessionClosed>,
) {
    match s.phase {
        Phase::Closed(_) => (s, Err(SessionClosed)),
        Phase::Closing => match event {
            EventView::Sent => stop_spec(s, Exit::Normal),
            EventView::SendFailed => stop_spec(
                s,
                Exit::Failed(SessionError::Transport(TransportError::Io)),
            ),
            _ => (s, Err(SessionClosed)),
        },
        Phase::Open => match event {
            EventView::Command { command: FrontendCommandView::Disconnect, .. } => (
                SessionView { channel_id: s.channel_id, phase: Phase::Closing },
                Ok(
                    ActionView::Send(
                        ManagementCommandView::CloseChannel { channel_id: s.channel_id },
                    ),
                ),
            ),
            EventView::Command { payload: Some(message), .. } => (
                s,
                Ok(
                    ActionView::Send(
                        ManagementCommandView::SendOnChannel {
                            channel_id: s.channel_id,
                            message,
                        },
                    ),
                ),
            ),
            EventView::Command { payload: None, .. } => stop_spec(
                s,
                Exit::Failed(SessionError::Encode),
            ),
            EventView::Inbound(
                InboundView::Response(
                    ManagementResponseView::ChannelMessage { channel_id, message, .. },
                ),
            ) => if channel_id == s.channel_id {
                (s, Ok(ActionView::Decode(message)))
            } else {
                (s, Ok(ActionView::Wait))
            },
            EventView::Inbound(
                InboundView::Response(ManagementResponseView::ChannelClosed { channel_id }),
            ) => if channel_id == s.channel_id {
                stop_spec(s, Exit::Normal)
            } else {
                (s, Ok(ActionView::Wait))
            },
            EventView::Inbound(InboundView::Response(_)) => (s, Ok(ActionView::Wait)),
            EventView::Inbound(InboundView::Malformed) => (s, Ok(ActionView::Wait)),
            EventView::Inbound(InboundView::EndOfStream) => stop_spec(
                s,
                Exit::Failed(SessionError::ConnectionClosed),
            ),
            EventView::Inbound(InboundView::Failed(error)) => stop_spec(
                s,
                Exit::Failed(SessionError::Transport(error)),
            ),
            EventView::Decoded(Some(message)) => (s, Ok(ActionView::Deliver(message))),
            EventView::Decoded(None) => (s, Ok(ActionView::Wait)),
            EventView::Sent => (s, Ok(ActionView::Wait)),
            EventView::SendFailed => stop_spec(
                s,
                Exit::Failed(SessionError::Transport(TransportError::Io)),
            ),
            EventView::ConsumerClosed => stop_spec(
                s,
                Exit::Failed(SessionError::ConsumerClosed),
            ),
        },
    }
}

/// The event loop over a recorded run of events: the session afterwards, and
/// the actions it answered with, one for each event it accepted.
pub open spec fn run_spec(s: SessionView, events: Seq<EventView>) -> (SessionView, Seq<ActionView>)
    decreases events.len(),
{
    if events.len() == 0 {
        (s, Seq::empty())
    } else {
        let first = step_spec(s, events[0]);
        let rest = run_spec(first.0, events.drop_first());
        match first.1 {
            Ok(action) => (rest.0, seq![action] + rest.1),
            Err(_) => (rest.0, rest.1),
        }
    }
}

/// The request that opens a channel to the actor `actor_id`.
///
/// This is the only command that goes out before a session exists.
pub fn open_request(actor_id: &str, initial_message: Vec<u8>) -> (command: ManagementCommand)
    ensures
        command@ == open_request_spec(actor_id@, initial_message@),
{
    ManagementCommand::OpenChannel {
        target: ChannelParticipant::Actor(actor_id.to_owned()),
        initial_message,
    }
}

/// What comes of writing the first message on a new channel, the one that
/// tells the actor that a front end is on the other side: its text, or
/// `None` if it is not written.
pub open spec fn hello_json() -> Option<Seq<u8>> {
    object_json(seq![("client_type"@, "frontend"@)], Seq::empty())
}

/// The request that opens a channel to the actor `actor_id` and greets it as
/// a front end, or `None` if the greeting is not written.
pub open spec fn open_channel_spec(actor_id: Seq<char>) -> Option<ManagementCommandView> {
    match hello_json() {
        Some(greeting) => Some(open_request_spec(actor_id, greeting)),
        None => None,
    }
}

/// Writes the first message on a new channel.
///
/// The result is what [`hello_json`] names: the text of the greeting, or
/// `EncodeError` where there is none.
pub fn hello() -> (r: Result<Vec<u8>, EncodeError>)
    ensures
        match hello_json() {
            Some(text) => r is Ok && r->Ok_0@ == text,
            None => r == Err::<Vec<u8>, EncodeError>(EncodeError),
        },
{
    let mut texts: Vec<(String, String)> = Vec::new();
    texts.push(("client_type".to_owned(), "frontend".to_owned()));
    let lists: Vec<(String, Vec<String>)> = Vec::new();
    proof {
        assert(crate::json::text_fields(texts@) =~= seq![("client_type"@, "frontend"@)]);
        assert(crate::json::list_fields(lists@) =~= Seq::empty());
    }
    object(&texts, &lists)
}

/// The request that opens a channel to the actor `actor_id` and greets it
/// as a front end.
///
/// The request is built whenever the greeting is written, and it carries
/// the greeting as its first message; else the result is `EncodeError`.
pub fn open_channel(actor_id: &str) -> (r: Result<ManagementCommand, EncodeError>)
    ensures
        match open_channel_spec(actor_id@) {
            Some(command) => r is Ok && r->Ok_0@ == command,
            None => r == Err::<ManagementCommand, EncodeError>(EncodeError),
        },
{
    match hello() {
        Ok(initial_message) => Ok(open_request(actor_id, initial_message)),
        Err(error) => Err(error),
    }
}

/// One logical channel to a remote actor.
///
/// A session comes into being when the server has opened the channel, and is
/// bound to the channel id that the server chose for as long as it lives.
pub struct Session {
    channel_id: String,
    phase: Phase,
}

impl View for Session {
    type V = SessionView;

    closed spec fn view(&self) -> SessionView {
        SessionView { channel_id: self.channel_id@, phase: self.phase }
    }
}

impl Session {
    /// Completes the handshake with what came back for the open request.
    ///
    /// An opened channel gives a session bound to its id. An error response
    /// is a rejection with the server's message. Any other response, and a
    /// frame that holds no known response, is unexpected. The end of the
    /// stream and a failure of the connection are reported as such.
    pub fn open(reply: Inbound) -> (r: Result<Session, OpenError>)
        ensures
            match open_spec(reply@) {
                Ok(session) => r is Ok && r->Ok_0@ == session,
                Err(error) => r is Err && r->Err_0@ == error,
            },
    {
        match reply {
            Inbound::Response(ManagementResponse::ChannelOpened { channel_id, participant: _ }) => {
                Ok(Session { channel_id, phase: Phase::Open })
            },
            Inbound::Response(ManagementResponse::Error { message }) => Err(
                OpenError::Rejected(message),
            ),
            Inbound::Response(_) => Err(OpenError::UnexpectedResponse),
            Inbound::Malformed => Err(OpenError::UnexpectedResponse),
            Inbound::EndOfStream => Err(OpenError::ConnectionClosed),
            Inbound::Failed(error) => Err(OpenError::Transport(error)),
        }
    }

    /// The id of the channel this session is bound to.
    pub fn channel_id(&self) -> (id: &str)
        ensures
            id@ == self@.channel_id,
    {
        self.channel_id.as_str()
    }

    /// Where the session stands.
    pub fn phase(&self) -> (phase: Phase)
        ensures
            phase == self@.phase,
    {
        self.phase
    }

    /// Marks the session as stopped with `exit`.
    fn stop(&mut self, exit: Exit) -> (r: Result<Action, SessionClosed>)
        ensures
            (final(self)@, r) == (stop_spec(old(self)@, exit).0, Ok::<Action, SessionClosed>(
                Action::Stop(exit),
            )),
    {
        self.phase = Phase::Closed(exit);
        Ok(Action::Stop(exit))
    }

    /// Takes one turn of the event loop.
    ///
    /// Returns what the caller has to do, or `SessionClosed` if the session
    /// no longer takes events. The channel id never changes.
    pub fn step(&mut self, event: Event) -> (r: Result<Action, SessionClosed>)
        ensures
            final(self)@ == step_spec(old(self)@, event@).0,
            final(self)@.channel_id == old(self)@.channel_id,
            match step_spec(old(self)@, event@).1 {
                Ok(action) => r is Ok && r->Ok_0@ == action,
                Err(closed) => r == Err::<Action, SessionClosed>(closed),
            },
    {
        match self.phase {
            Phase::Closed(_) => Err(SessionClosed),
            Phase::Closing => match event {
                Event::Sent => self.stop(Exit::Normal),
                Event::SendFailed => self.stop(
                    Exit::Failed(SessionError::Transport(TransportError::Io)),
                ),
                _ => Err(SessionClosed),
            },
            Phase::Open => match event {
                Event::Command { command: FrontendCommand::Disconnect, payload: _ } => {
                    self.phase = Phase::Closing;
                    Ok(
                        Action::Send(
                            ManagementCommand::CloseChannel { channel_id: self.channel_id.clone() },
                        ),
                    )
                },
                Event::Command { command: _, payload: Some(message) } => Ok(
                    Action::Send(
                        ManagementCommand::SendOnChannel {
                            channel_id: self.channel_id.clone(),
                            message,
                        },
                    ),
                ),
                Event::Command { command: _, payload: None } => self.stop(
                    Exit::Failed(SessionError::Encode),
                ),
                Event::Inbound(
                    Inbound::Response(
                        ManagementResponse::ChannelMessage { channel_id, sender: _, message },
                    ),
                ) => {
                    if channel_id == self.channel_id {
                        Ok(Action::Decode(message))
                    } else {
                        Ok(Action::Wait)
                    }
                },
                Event::Inbound(
                    Inbound::Response(ManagementResponse::ChannelClosed { channel_id }),
                ) => {
                    if channel_id == self.channel_id {
                        self.stop(Exit::Normal)
                    } else {
                        Ok(Action::Wait)
                    }
                },
                Event::Inbound(Inbound::Response(_)) => Ok(Action::Wait),
                Event::Inbound(Inbound::Malformed) => Ok(Action::Wait),
                Event::Inbound(Inbound::EndOfStream) => self.stop(
                    Exit::Failed(SessionError::ConnectionClosed),
                ),
                Event::Inbound(Inbound::Failed(error)) => self.stop(
                    Exit::Failed(SessionError::Transport(error)),
                ),
                Event::Decoded(Some(message)) => Ok(Action::Deliver(message)),
                Event::Decoded(None) => Ok(Action::Wait),
                Event::Sent => Ok(Action::Wait),
                Event::SendFailed => self.stop(
                    Exit::Failed(SessionError::Transport(TransportError::Io)),
                ),
                Event::ConsumerClosed => self.stop(Exit::Failed(SessionError::ConsumerClosed)),
            },
        }
    }

    /// Runs the event loop over a recorded run of events, in order.
    ///
    /// Returns the actions the session answered with, one for each event it
    /// accepted. Events that arrive after the session has stopped are refused
    /// and leave no action.
    pub fn run(&mut self, events: Vec<Event>) -> (actions: Vec<Action>)
        ensures
            (final(self)@, actions_of(actions@)) == run_spec(old(self)@, events_of(events@)),
    {
        let mut actions: Vec<Action> = Vec::new();
        let ghost trace = events_of(events@);
        assert(trace.skip(0) =~= trace);
        for event in iter: events
            invariant
                trace == events_of(events@),
                iter.seq() == events@,
                run_spec(old(self)@, trace).0 == run_spec(self@, trace.skip(iter.index())).0,
                run_spec(old(self)@, trace).1 == actions_of(actions@) + run_spec(
                    self@,
                    trace.skip(iter.index()),
                ).1,
        {
            assert(trace.skip(iter.index()).drop_first() =~= trace.skip(iter.index() + 1));
            match self.step(event) {
                Ok(action) => {
                    actions.push(action);
                },
                Err(_) => {},
            }
        }
        actions
    }
}

/// The commands that a list of actions asks to send, in order.
pub open spec fn sent(actions: Seq<ActionView>) -> Seq<ManagementCommandView>
    decreases actions.len(),
{
    if actions.len() == 0 {
        Seq::empty()
    } else {
        match actions[0] {
            ActionView::Send(command) => seq![command] + sent(actions.drop_first()),
            _ => sent(actions.drop_first()),
        }
    }
}

/// The messages that a list of actions asks to deliver, in order.
pub open spec fn delivered(actions: Seq<ActionView>) -> Seq<FrontendMessageView>
    decreases actions.len(),
{
    if actions.len() == 0 {
        Seq::empty()
    } else {
        match actions[0] {
            ActionView::Deliver(message) => seq![message] + delivered(actions.drop_first()),
            _ => delivered(actions.drop_first()),
        }
    }
}

/// The envelopes for the commands among `events`, in order, on `channel_id`.
pub open spec fn submitted(channel_id: Seq<char>, events: Seq<EventView>) -> Seq<
    ManagementCommandView,
>
    decreases events.len(),
{
    if events.len() == 0 {
        Seq::empty()
    } else {
        match events[0] {
            EventView::Command { payload: Some(message), .. } => seq![
                ManagementCommandView::SendOnChannel { channel_id, message },
            ] + submitted(channel_id, events.drop_first()),
            _ => submitted(channel_id, events.drop_first()),
        }
    }
}

/// The messages that were decoded among `events`, in order.
pub open spec fn decoded(events: Seq<EventView>) -> Seq<FrontendMessageView>
    decreases events.len(),
{
    if events.len() == 0 {
        Seq::empty()
    } else {
        match events[0] {
            EventView::Decoded(Some(message)) => seq![message] + decoded(events.drop_first()),
            _ => decoded(events.drop_first()),
        }
    }
}

/// Whether an open session on `channel_id` is still open after `event`.
pub open spec fn keeps_open(channel_id: Seq<char>, event: EventView) -> bool {
    step_spec(SessionView { channel_id, phase: Phase::Open }, event).0.phase == Phase::Open
}

/// Whether a command asks to close `channel_id`.
pub open spec fn closes(channel_id: Seq<char>, command: ManagementCommandView) -> bool {
    command == (ManagementCommandView::CloseChannel { channel_id })
}

/// Whether a command is addressed to `channel_id`: an envelope on it, or the
/// request to close it.
pub open spec fn addressed_to(channel_id: Seq<char>, command: ManagementCommandView) -> bool {
    match command {
        ManagementCommandView::SendOnChannel { channel_id: id, .. } => id == channel_id,
        ManagementCommandView::CloseChannel { channel_id: id } => id == channel_id,
        _ => false,
    }
}

/// How many of the actions ask to send the request that closes a channel.
pub open spec fn close_requests(actions: Seq<ActionView>) -> nat
    decreases actions.len(),
{
    if actions.len() == 0 {
        0
    } else {
        let rest = close_requests(actions.drop_first());
        match actions[0] {
            ActionView::Send(ManagementCommandView::CloseChannel { .. }) => 1 + rest,
            _ => rest,
        }
    }
}

/// A session stays bound to the channel id it was opened with, whatever
/// happens to it.
pub proof fn lemma_channel_id_is_fixed(s: SessionView, events: Seq<EventView>)
    ensures
        run_spec(s, events).0.channel_id == s.channel_id,
    decreases events.len(),
{
    if events.len() > 0 {
        lemma_channel_id_is_fixed(step_spec(s, events[0]).0, events.drop_first());
    }
}

/// Every command a session asks to send is addressed to the channel the
/// session was opened with.
pub proof fn lemma_sends_are_addressed_to_the_channel(s: SessionView, events: Seq<EventView>)
    ensures
        forall|i: int|
            0 <= i < sent(run_spec(s, events).1).len() ==> addressed_to(
                s.channel_id,
                #[trigger] sent(run_spec(s, events).1)[i],
            ),
    decreases events.len(),
{
    if events.len() > 0 {
        let first = step_spec(s, events[0]);
        let rest = run_spec(first.0, events.drop_first());
        lemma_sends_are_addressed_to_the_channel(first.0, events.drop_first());
        match first.1 {
            Ok(action) => {
                let actions = seq![action] + rest.1;
                assert(actions.drop_first() =~= rest.1);
                let all = sent(actions);
                assert forall|i: int| 0 <= i < all.len() implies addressed_to(
                    s.channel_id,
                    #[trigger] all[i],
                ) by {
                    if action is Send && i > 0 {
                        assert(all[i] == sent(rest.1)[i - 1]);
                    }
                }
            },
            Err(_) => {},
        }
    }
}

/// A session that has stopped refuses every event: it stays as it is and
/// asks for nothing.
pub proof fn lemma_stopped_session_refuses(s: SessionView, events: Seq<EventView>)
    requires
        s.phase is Closed,
    ensures
        run_spec(s, events) == (s, Seq::<ActionView>::empty()),
        forall|event: EventView| #[trigger]
            step_spec(s, event) == (s, Err::<ActionView, SessionClosed>(SessionClosed)),
    decreases events.len(),
{
    if events.len() > 0 {
        lemma_stopped_session_refuses(s, events.drop_first());
    }
}

/// Commands go out in the order they came in.
///
/// While nothing closes or breaks the session, the envelopes it asks to send
/// are exactly those of the commands it was given, in the same order, however
/// the commands are interleaved with traffic from the server. The messages it
/// asks to deliver are exactly the decoded ones, in the same order.
pub proof fn lemma_order_is_preserved(s: SessionView, events: Seq<EventView>)
    requires
        s.phase == Phase::Open,
        forall|i: int| 0 <= i < events.len() ==> keeps_open(s.channel_id, #[trigger] events[i]),
    ensures
        run_spec(s, events).0 == s,
        sent(run_spec(s, events).1) == submitted(s.channel_id, events),
        delivered(run_spec(s, events).1) == decoded(events),
    decreases events.len(),
{
    if events.len() > 0 {
        let first = step_spec(s, events[0]);
        let tail = events.drop_first();
        lemma_order_is_preserved(s, tail);
        let actions = seq![first.1->Ok_0] + run_spec(s, tail).1;
        assert(actions.drop_first() =~= run_spec(s, tail).1);
    }
}

/// Once the request to close the channel is on its way, no further one is
/// asked for.
proof fn lemma_no_second_close_request(s: SessionView, events: Seq<EventView>)
    requires
        s.phase != Phase::Open,
    ensures
        close_requests(run_spec(s, events).1) == 0,
    decreases events.len(),
{
    if events.len() > 0 {
        let first = step_spec(s, events[0]);
        let rest = run_spec(first.0, events.drop_first());
        lemma_no_second_close_request(first.0, events.drop_first());
        match first.1 {
            Ok(action) => {
                let actions = seq![action] + rest.1;
                assert(actions.drop_first() =~= rest.1);
            },
            Err(_) => {},
        }
    }
}

/// A session asks at most once for its channel to be closed.
pub proof fn lemma_close_is_requested_at_most_once(s: SessionView, events: Seq<EventView>)
    ensures
        close_requests(run_spec(s, events).1) <= 1,
    decreases events.len(),
{
    if s.phase != Phase::Open {
        lemma_no_second_close_request(s, events);
    } else if events.len() > 0 {
        let first = step_spec(s, events[0]);
        let rest = run_spec(first.0, events.drop_first());
        if first.0.phase == Phase::Open {
            lemma_close_is_requested_at_most_once(first.0, events.drop_first());
        } else {
            lemma_no_second_close_request(first.0, events.drop_first());
        }
        let actions = seq![first.1->Ok_0] + rest.1;
        assert(actions.drop_first() =~= rest.1);
    }
}

/// Whether an event reports the fate of a command that was sent.
pub open spec fn is_send_report(event: EventView) -> bool {
    event is Sent || event is SendFailed
}

/// While the request to close the channel is on its way, nothing but its
/// fate is taken in: every other event is refused and leaves no action.
pub proof fn lemma_closing_session_waits(
    s: SessionView,
    early: Seq<EventView>,
    rest: Seq<EventView>,
)
    requires
        s.phase == Phase::Closing,
        forall|i: int| 0 <= i < early.len() ==> !is_send_report(#[trigger] early[i]),
    ensures
        run_spec(s, early + rest) == run_spec(s, rest),
    decreases early.len(),
{
    if early.len() > 0 {
        let tail = early.drop_first();
        assert((early + rest).drop_first() =~= tail + rest);
        lemma_closing_session_waits(s, tail, rest);
    }
}

/// Disconnecting closes the channel once and ends the session.
///
/// An open session answers the disconnect command with the request to close
/// its channel and, once that request is written, stops normally. Whatever
/// else arrives in between or afterwards is refused and leaves no action:
/// no command is accepted any more.
pub proof fn lemma_disconnect_ends_the_session(
    s: SessionView,
    payload: Option<Seq<u8>>,
    early: Seq<EventView>,
    later: Seq<EventView>,
)
    requires
        s.phase == Phase::Open,
        forall|i: int| 0 <= i < early.len() ==> !is_send_report(#[trigger] early[i]),
    ensures
        run_spec(
            s,
            seq![EventView::Command { command: FrontendCommandView::Disconnect, payload }] + early
                + seq![EventView::Sent] + later,
        ) == (
            SessionView { channel_id: s.channel_id, phase: Phase::Closed(Exit::Normal) },
            seq![
                ActionView::Send(ManagementCommandView::CloseChannel { channel_id: s.channel_id }),
                ActionView::Stop(Exit::Normal),
            ],
        ),
{
    let disconnect = EventView::Command { command: FrontendCommandView::Disconnect, payload };
    let events = seq![disconnect] + early + seq![EventView::Sent] + later;
    let closing = SessionView { channel_id: s.channel_id, phase: Phase::Closing };
    let closed = SessionView { channel_id: s.channel_id, phase: Phase::Closed(Exit::Normal) };
    let report = seq![EventView::Sent] + later;
    assert(events.drop_first() =~= early + report);
    lemma_closing_session_waits(closing, early, report);
    assert(report.drop_first() =~= later);
    lemma_stopped_session_refuses(closed, later);
}

/// A payload that holds no known message is dropped and does no harm.
///
/// The session stays open, and the next message on its channel is decoded
/// and delivered as if nothing had happened.
pub proof fn lemma_malformed_payload_is_tolerated(
    s: SessionView,
    sender: ChannelParticipantView,
    bad: Seq<u8>,
    good: Seq<u8>,
    message: FrontendMessageView,
)
    requires
        s.phase == Phase::Open,
    ensures
        step_spec(s, EventView::Decoded(None)) == (
            s,
            Ok::<ActionView, SessionClosed>(ActionView::Wait),
        ),
        run_spec(
            s,
            seq![
                EventView::Inbound(
                    InboundView::Response(
                        ManagementResponseView::ChannelMessage {
                            channel_id: s.channel_id,
                            sender,
                            message: bad,
                        },
                    ),
                ),
                EventView::Decoded(None),
                EventView::Inbound(
                    InboundView::Response(
                        ManagementResponseView::ChannelMessage {
                            channel_id: s.channel_id,
                            sender,
                            message: good,
                        },
                    ),
                ),
                EventView::Decoded(Some(message)),
            ],
        ) == (
            s,
            seq![
                ActionView::Decode(bad),
                ActionView::Wait,
                ActionView::Decode(good),
                ActionView::Deliver(message),
            ],
        ),
{
    let e0 = EventView::Inbound(
        InboundView::Response(
            ManagementResponseView::ChannelMessage {
                channel_id: s.channel_id,
                sender,
                message: bad,
            },
        ),
    );
    let e1 = EventView::Decoded(None);
    let e2 = EventView::Inbound(
        InboundView::Response(
            ManagementResponseView::ChannelMessage {
                channel_id: s.channel_id,
                sender,
                message: good,
            },
        ),
    );
    let e3 = EventView::Decoded(Some(message));
    let t0 = seq![e0, e1, e2, e3];
    let t1 = t0.drop_first();
    let t2 = t1.drop_first();
    let t3 = t2.drop_first();
    assert(run_spec(s, t3.drop_first()).1 =~= Seq::<ActionView>::empty());
    assert(run_spec(s, t3).1 =~= seq![ActionView::Deliver(message)]);
    assert(run_spec(s, t2).1 =~= seq![ActionView::Decode(good), ActionView::Deliver(message)]);
    assert(run_spec(s, t1).1 =~= seq![
        ActionView::Wait,
        ActionView::Decode(good),
        ActionView::Deliver(message),
    ]);
}

/// Traffic for another channel is ignored.
///
/// A message or a close notice that bears a channel id other than the
/// session's own changes nothing and asks for nothing: no payload is decoded,
/// so nothing reaches the message queue.
pub proof fn lemma_foreign_channel_is_ignored(
    s: SessionView,
    channel_id: Seq<char>,
    sender: ChannelParticipantView,
    message: Seq<u8>,
)
    requires
        s.phase == Phase::Open,
        channel_id != s.channel_id,
    ensures
        step_spec(
            s,
            EventView::Inbound(
                InboundView::Response(
                    ManagementResponseView::ChannelMessage { channel_id, sender, message },
                ),
            ),
        ) == (s, Ok::<ActionView, SessionClosed>(ActionView::Wait)),
        step_spec(
            s,
            EventView::Inbound(
                InboundView::Response(ManagementResponseView::ChannelClosed { channel_id }),
            ),
        ) == (s, Ok::<ActionView, SessionClosed>(ActionView::Wait)),
{
}

} // verus!
