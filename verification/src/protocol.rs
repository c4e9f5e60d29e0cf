//! The messages of the management protocol, and the front-end payloads that
//! travel inside channel envelopes.
//!
//! Every type has a view that replaces strings and byte vectors by sequences;
//! the contracts of the crate are stated over those views.

use vstd::prelude::*;

verus! {

/// The text that an optional string holds.
pub open spec fn text_of(value: Option<String>) -> Option<Seq<char>> {
    match value {
        Some(text) => Some(text@),
        None => None,
    }
}

/// The texts that a list of strings holds, in order.
pub open spec fn texts_of(values: Seq<String>) -> Seq<Seq<char>> {
    values.map_values(|text: String| text@)
}

/// One end of a channel: a remote actor, or the client itself.
#[derive(Debug, Clone, PartialEq, Eq)]
pub enum ChannelParticipant {
    Actor(String),
    External,
}

/// The view of [`ChannelParticipant`].
pub enum ChannelParticipantView {
    Actor(Seq<char>),
    External,
}

impl View for ChannelParticipant {
    type V = ChannelParticipantView;

    open spec fn view(&self) -> ChannelParticipantView {
        match self {
            ChannelParticipant::Actor(id) => ChannelParticipantView::Actor(id@),
            ChannelParticipant::External => ChannelParticipantView::External,
        }
    }
}

/// A request from the client to the server.
#[derive(Debug, Clone, PartialEq, Eq)]
pub enum ManagementCommand {
    StartActor { manifest: String, initial_state: Option<Vec<u8>> },
    NewStore {  },
    RequestActorMessage { id: String, data: Vec<u8> },
    OpenChannel { target: ChannelParticipant, initial_message: Vec<u8> },
    SendOnChannel { channel_id: String, message: Vec<u8> },
    CloseChannel { channel_id: String },
}

/// The view of [`ManagementCommand`].
pub enum ManagementCommandView {
    StartActor { manifest: Seq<char>, initial_state: Option<Seq<u8>> },
    NewStore {  },
    RequestActorMessage { id: Seq<char>, data: Seq<u8> },
    OpenChannel { target: ChannelParticipantView, initial_message: Seq<u8> },
    SendOnChannel { channel_id: Seq<char>, message: Seq<u8> },
    CloseChannel { channel_id: Seq<char> },
}

impl View for ManagementCommand {
    type V = ManagementCommandView;

    open spec fn view(&self) -> ManagementCommandView {
        match self {
            ManagementCommand::StartActor { manifest, initial_state } => {
                ManagementCommandView::StartActor {
                    manifest: manifest@,
                    initial_state: match initial_state {
                        Some(bytes) => Some(bytes@),
                        None => None,
                    },
                }
            },
            ManagementCommand::NewStore {  } => ManagementCommandView::NewStore {  },
            ManagementCommand::RequestActorMessage { id, data } => {
                ManagementCommandView::RequestActorMessage { id: id@, data: data@ }
            },
            ManagementCommand::OpenChannel { target, initial_message } => {
                ManagementCommandView::OpenChannel {
                    target: target@,
                    initial_message: initial_message@,
                }
            },
            ManagementCommand::SendOnChannel { channel_id, message } => {
                ManagementCommandView::SendOnChannel { channel_id: channel_id@, message: message@ }
            },
            ManagementCommand::CloseChannel { channel_id } => {
                ManagementCommandView::CloseChannel { channel_id: channel_id@ }
            },
        }
    }
}

/// A message from the server to the client.
#[derive(Debug, Clone, PartialEq, Eq)]
#[allow(inconsistent_fields)]
pub enum ManagementResponse {
    StoreCreated { store_id: String },
    ActorStarted { id: String },
    RequestedMessage { id: String, message: Vec<u8> },
    ChannelOpened { channel_id: String, participant: ChannelParticipant },
    MessageSent { channel_id: String },
    ChannelMessage { channel_id: String, sender: ChannelParticipant, message: Vec<u8> },
    ChannelClosed { channel_id: String },
    Error { message: String },
}

/// The view of [`ManagementResponse`].
#[allow(inconsistent_fields)]
pub enum ManagementResponseView {
    StoreCreated { store_id: Seq<char> },
    ActorStarted { id: Seq<char> },
    RequestedMessage { id: Seq<char>, message: Seq<u8> },
    ChannelOpened { channel_id: Seq<char>, participant: ChannelParticipantView },
    MessageSent { channel_id: Seq<char> },
    ChannelMessage { channel_id: Seq<char>, sender: ChannelParticipantView, message: Seq<u8> },
    ChannelClosed { channel_id: Seq<char> },
    Error { message: Seq<char> },
}

impl View for ManagementResponse {
    type V = ManagementResponseView;

    open spec fn view(&self) -> ManagementResponseView {
        match self {
            ManagementResponse::StoreCreated { store_id } => {
                ManagementResponseView::StoreCreated { store_id: store_id@ }
            },
            ManagementResponse::ActorStarted { id } => {
                ManagementResponseView::ActorStarted { id: id@ }
            },
            ManagementResponse::RequestedMessage { id, message } => {
                ManagementResponseView::RequestedMessage { id: id@, message: message@ }
            },
            ManagementResponse::ChannelOpened { channel_id, participant } => {
                ManagementResponseView::ChannelOpened {
                    channel_id: channel_id@,
                    participant: participant@,
                }
            },
            ManagementResponse::MessageSent { channel_id } => {
                ManagementResponseView::MessageSent { channel_id: channel_id@ }
            },
            ManagementResponse::ChannelMessage { channel_id, sender, message } => {
                ManagementResponseView::ChannelMessage {
                    channel_id: channel_id@,
                    sender: sender@,
                    message: message@,
                }
            },
            ManagementResponse::ChannelClosed { channel_id } => {
                ManagementResponseView::ChannelClosed { channel_id: channel_id@ }
            },
            ManagementResponse::Error { message } => {
                ManagementResponseView::Error { message: message@ }
            },
        }
    }
}

/// What the user can ask of the managed actor. Travels inside `SendOnChannel`.
#[derive(Debug, Clone, PartialEq, Eq)]
pub enum FrontendCommand {
    StartActor,
    StopActor,
    BuildActor,
    ChangeRequest { description: String },
    GetStatus,
    Disconnect,
}

/// The view of [`FrontendCommand`].
pub enum FrontendCommandView {
    StartActor,
    StopActor,
    BuildActor,
    ChangeRequest { description: Seq<char> },
    GetStatus,
    Disconnect,
}

impl View for FrontendCommand {
    type V = FrontendCommandView;

    open spec fn view(&self) -> FrontendCommandView {
        match self {
            FrontendCommand::StartActor => FrontendCommandView::StartActor,
            FrontendCommand::StopActor => FrontendCommandView::StopActor,
            FrontendCommand::BuildActor => FrontendCommandView::BuildActor,
            FrontendCommand::ChangeRequest { description } => {
                FrontendCommandView::ChangeRequest { description: description@ }
            },
            FrontendCommand::GetStatus => FrontendCommandView::GetStatus,
            FrontendCommand::Disconnect => FrontendCommandView::Disconnect,
        }
    }
}

/// The kinds of operation the manager runs.
#[derive(Debug, Clone, Copy, PartialEq, Eq, Structural)]
pub enum OperationType {
    Start,
    Stop,
    Build,
    Change,
}

impl OperationType {
    /// The name of the operation as it is shown to the user.
    pub open spec fn label(self) -> Seq<char> {
        match self {
            OperationType::Start => "Start"@,
            OperationType::Stop => "Stop"@,
            OperationType::Build => "Build"@,
            OperationType::Change => "Change"@,
        }
    }

    /// The name of the operation as it is shown to the user.
    pub fn to_string(&self) -> (text: String)
        ensures
            text@ == self.label(),
    {
        match self {
            OperationType::Start => "Start".to_owned(),
            OperationType::Stop => "Stop".to_owned(),
            OperationType::Build => "Build".to_owned(),
            OperationType::Change => "Change".to_owned(),
        }
    }
}

/// The kinds of event a build reports.
#[derive(Debug, Clone, Copy, PartialEq, Eq, Structural)]
pub enum BuildEventType {
    Log,
    Progress,
    CommandStarted,
    CommandOutput,
    BuildComplete,
    FileExtracted,
}

/// What a build event carries beyond its message. Every field is optional;
/// which of them are present depends on the kind of event.
///
/// `percent_complete` holds the percentage as text with one decimal place.
#[derive(Debug, Clone, PartialEq, Eq)]
pub struct BuildEventDetails {
    pub level: Option<String>,
    pub percent_complete: Option<String>,
    pub status: Option<String>,
    pub command: Option<String>,
    pub args: Option<Vec<String>>,
    pub stdout: Option<String>,
    pub stderr: Option<String>,
    pub success: Option<bool>,
    pub error: Option<String>,
    pub wasm_path: Option<String>,
    pub wasm_hash: Option<String>,
}

/// The view of [`BuildEventDetails`].
pub struct BuildEventDetailsView {
    pub level: Option<Seq<char>>,
    pub percent_complete: Option<Seq<char>>,
    pub status: Option<Seq<char>>,
    pub command: Option<Seq<char>>,
    pub args: Option<Seq<Seq<char>>>,
    pub stdout: Option<Seq<char>>,
    pub stderr: Option<Seq<char>>,
    pub success: Option<bool>,
    pub error: Option<Seq<char>>,
    pub wasm_path: Option<Seq<char>>,
    pub wasm_hash: Option<Seq<char>>,
}

impl View for BuildEventDetails {
    type V = BuildEventDetailsView;

    open spec fn view(&self) -> BuildEventDetailsView {
        BuildEventDetailsView {
            level: text_of(self.level),
            percent_complete: text_of(self.percent_complete),
            status: text_of(self.status),
            command: text_of(self.command),
            args: match self.args {
                Some(args) => Some(texts_of(args@)),
                None => None,
            },
            stdout: text_of(self.stdout),
            stderr: text_of(self.stderr),
            success: self.success,
            error: text_of(self.error),
            wasm_path: text_of(self.wasm_path),
            wasm_hash: text_of(self.wasm_hash),
        }
    }
}

/// One running operation, as a status report lists it.
#[derive(Debug, Clone, PartialEq, Eq)]
pub struct OperationSummary {
    pub operation_id: String,
    pub operation_type: OperationType,
    pub description: String,
}

/// The view of [`OperationSummary`].
pub struct OperationSummaryView {
    pub operation_id: Seq<char>,
    pub operation_type: OperationType,
    pub description: Seq<char>,
}

impl View for OperationSummary {
    type V = OperationSummaryView;

    open spec fn view(&self) -> OperationSummaryView {
        OperationSummaryView {
            operation_id: self.operation_id@,
            operation_type: self.operation_type,
            description: self.description@,
        }
    }
}

/// The summaries that a list of operations holds, in order.
pub open spec fn summaries_of(operations: Seq<OperationSummary>) -> Seq<OperationSummaryView> {
    operations.map_values(|operation: OperationSummary| operation@)
}

/// What the managed actor reports back. Travels inside `ChannelMessage`.
///
/// `percent_complete` holds the percentage as text with one decimal place.
#[derive(Debug, Clone, PartialEq, Eq)]
pub enum FrontendMessage {
    Status { child_running: bool, active_operations: Vec<OperationSummary> },
    OperationStarted { operation_id: String, operation_type: OperationType, description: String },
    OperationCompleted { operation_id: String, success: bool, message: String },
    OperationProgress { operation_id: String, description: String, percent_complete: String },
    ChildStarted { child_id: String },
    ChildStopped { child_id: String },
    Log { level: String, message: String },
    Error { code: String, message: String },
    BuildEvent {
        operation_id: String,
        event_type: BuildEventType,
        message: String,
        details: BuildEventDetails,
    },
}

/// The view of [`FrontendMessage`].
pub enum FrontendMessageView {
    Status { child_running: bool, active_operations: Seq<OperationSummaryView> },
    OperationStarted {
        operation_id: Seq<char>,
        operation_type: OperationType,
        description: Seq<char>,
    },
    OperationCompleted { operation_id: Seq<char>, success: bool, message: Seq<char> },
    OperationProgress {
        operation_id: Seq<char>,
        description: Seq<char>,
        percent_complete: Seq<char>,
    },
    ChildStarted { child_id: Seq<char> },
    ChildStopped { child_id: Seq<char> },
    Log { level: Seq<char>, message: Seq<char> },
    Error { code: Seq<char>, message: Seq<char> },
    BuildEvent {
        operation_id: Seq<char>,
        event_type: BuildEventType,
        message: Seq<char>,
        details: BuildEventDetailsView,
    },
}

impl View for FrontendMessage {
    type V = FrontendMessageView;

    open spec fn view(&self) -> FrontendMessageView {
        match self {
            FrontendMessage::Status { child_running, active_operations } => {
                FrontendMessageView::Status {
                    child_running: *child_running,
                    active_operations: summaries_of(active_operations@),
                }
            },
            FrontendMessage::OperationStarted { operation_id, operation_type, description } => {
                FrontendMessageView::OperationStarted {
                    operation_id: operation_id@,
                    operation_type: *operation_type,
                    description: description@,
                }
            },
            FrontendMessage::OperationCompleted { operation_id, success, message } => {
                FrontendMessageView::OperationCompleted {
                    operation_id: operation_id@,
                    success: *success,
                    message: message@,
                }
            },
            FrontendMessage::OperationProgress { operation_id, description, percent_complete } => {
                FrontendMessageView::OperationProgress {
                    operation_id: operation_id@,
                    description: description@,
                    percent_complete: percent_complete@,
                }
            },
            FrontendMessage::ChildStarted { child_id } => {
                FrontendMessageView::ChildStarted { child_id: child_id@ }
            },
            FrontendMessage::ChildStopped { child_id } => {
                FrontendMessageView::ChildStopped { child_id: child_id@ }
            },
            FrontendMessage::Log { level, message } => {
                FrontendMessageView::Log { level: level@, message: message@ }
            },
            FrontendMessage::Error { code, message } => {
                FrontendMessageView::Error { code: code@, message: message@ }
            },
            FrontendMessage::BuildEvent { operation_id, event_type, message, details } => {
                FrontendMessageView::BuildEvent {
                    operation_id: operation_id@,
                    event_type: *event_type,
                    message: message@,
                    details: details@,
                }
            },
        }
    }
}

} // verus!
