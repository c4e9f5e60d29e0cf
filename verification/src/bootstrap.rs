//! The one-shot exchanges that set the system up before a session exists:
//! creating stores and starting the actors the manager needs.
//!
//! Each exchange is one request and one response. This module builds the
//! requests and reads the responses; the caller sends and receives.

use crate::json::{list_fields, object, object_json, text_fields};
use crate::protocol::{
    ManagementCommand, ManagementCommandView, ManagementResponse, ManagementResponseView,
};
use crate::session::{Inbound, InboundView, TransportError};
use vstd::prelude::*;
use vstd::string::StringExecFns;

verus! {

/// Manifest of the actor that serves the content of a store.
pub const CONTENT_FS_MANIFEST: &'static str =
    "/Users/colinrozzi/work/actors/runtime-content-fs/actor.toml";

/// Manifest of the actor that uploads the template child actor.
pub const ACTOR_UPLOADER_MANIFEST: &'static str =
    "/Users/colinrozzi/work/actors/actor-uploader/child-actor.toml";

/// Manifest of the manager actor.
pub const MANAGER_MANIFEST: &'static str = "/Users/colinrozzi/work/actors/manager/actor.toml";

/// Why the system could not be set up.
#[derive(Clone, Copy, Debug, PartialEq, Eq, Structural)]
pub enum BootstrapError {
    /// Neither a new store was asked for nor an existing one named.
    MissingStore,
    /// The manager needs an API key and none was given.
    MissingApiKey,
    /// A request could not be written.
    Encode,
    /// The server answered with a response of another kind.
    UnexpectedResponse,
    /// The server answered with something that is no response.
    Malformed,
    /// The connection ended before an answer came.
    NoResponse,
    /// The connection failed.
    Transport(TransportError),
}

impl BootstrapError {
    /// What the user is told.
    pub open spec fn text(self) -> Seq<char> {
        match self {
            BootstrapError::MissingStore => {
                "Please provide either --new-store flag or --store-id <ID>"@
            },
            BootstrapError::MissingApiKey => "ANTHROPIC_API_KEY environment variable not set"@,
            BootstrapError::Encode => "Request could not be encoded"@,
            BootstrapError::UnexpectedResponse => "Unexpected response type"@,
            BootstrapError::Malformed => "Response could not be decoded"@,
            BootstrapError::NoResponse => "No response received"@,
            BootstrapError::Transport(error) => "Connection failed: "@ + error.text(),
        }
    }

    /// What the user is told.
    pub fn message(&self) -> (message: String)
        ensures
            message@ == self.text(),
    {
        match self {
            BootstrapError::MissingStore => {
                "Please provide either --new-store flag or --store-id <ID>".to_owned()
            },
            BootstrapError::MissingApiKey => {
                "ANTHROPIC_API_KEY environment variable not set".to_owned()
            },
            BootstrapError::Encode => "Request could not be encoded".to_owned(),
            BootstrapError::UnexpectedResponse => "Unexpected response type".to_owned(),
            BootstrapError::Malformed => "Response could not be decoded".to_owned(),
            BootstrapError::NoResponse => "No response received".to_owned(),
            BootstrapError::Transport(error) => {
                let mut message = String::from_str("Connection failed: ");
                message.append(error.message().as_str());
                message
            },
        }
    }
}

/// Where the runtime store comes from.
#[derive(Clone, Debug, PartialEq, Eq)]
pub enum StoreChoice {
    /// A new store is created.
    Create,
    /// The store of this id is used.
    Use(String),
}

/// The view of [`StoreChoice`].
pub enum StoreChoiceView {
    Create,
    Use(Seq<char>),
}

impl View for StoreChoice {
    type V = StoreChoiceView;

    open spec fn view(&self) -> StoreChoiceView {
        match self {
            StoreChoice::Create => StoreChoiceView::Create,
            StoreChoice::Use(id) => StoreChoiceView::Use(id@),
        }
    }
}

/// Where the runtime store comes from: a new one if asked for, whatever
/// else was named; else the one that was named; else it is an error.
pub open spec fn choose_store_spec(new_store: bool, store_id: Option<Seq<char>>) -> Result<
    StoreChoiceView,
    BootstrapError,
> {
    if new_store {
        Ok(StoreChoiceView::Create)
    } else {
        match store_id {
            Some(id) => Ok(StoreChoiceView::Use(id)),
            None => Err(BootstrapError::MissingStore),
        }
    }
}

/// Decides where the runtime store comes from.
pub fn choose_store(new_store: bool, store_id: Option<String>) -> (r: Result<
    StoreChoice,
    BootstrapError,
>)
    ensures
        match choose_store_spec(new_store, crate::protocol::text_of(store_id)) {
            Ok(choice) => r is Ok && r->Ok_0@ == choice,
            Err(error) => r == Err::<StoreChoice, BootstrapError>(error),
        },
{
    if new_store {
        Ok(StoreChoice::Create)
    } else {
        match store_id {
            Some(id) => Ok(StoreChoice::Use(id)),
            None => Err(BootstrapError::MissingStore),
        }
    }
}

/// The request for a new store.
pub fn create_store() -> (command: ManagementCommand)
    ensures
        command@ == (ManagementCommandView::NewStore {  }),
{
    ManagementCommand::NewStore {  }
}

/// The request that starts the actor of `manifest` in `initial_state`.
pub fn start_actor(manifest: &str, initial_state: Vec<u8>) -> (command: ManagementCommand)
    ensures
        command@ == (ManagementCommandView::StartActor {
            manifest: manifest@,
            initial_state: Some(initial_state@),
        }),
{
    ManagementCommand::StartActor {
        manifest: manifest.to_owned(),
        initial_state: Some(initial_state),
    }
}

/// The request that starts the actor of `manifest` in the state that was
/// written for it, or the failure to write that state.
pub open spec fn start_actor_spec(manifest: Seq<char>, state: Option<Seq<u8>>) -> Result<
    ManagementCommandView,
    BootstrapError,
> {
    match state {
        Some(text) => Ok(ManagementCommandView::StartActor { manifest, initial_state: Some(text) }),
        None => Err(BootstrapError::Encode),
    }
}

/// The request that starts an actor whose initial state is the JSON object
/// with the given string fields.
fn start_with_fields(manifest: &str, fields: Vec<(String, String)>) -> (r: Result<
    ManagementCommand,
    BootstrapError,
>)
    ensures
        match start_actor_spec(manifest@, object_json(text_fields(fields@), Seq::empty())) {
            Ok(command) => r is Ok && r->Ok_0@ == command,
            Err(error) => r == Err::<ManagementCommand, BootstrapError>(error),
        },
{
    let lists: Vec<(String, Vec<String>)> = Vec::new();
    assert(list_fields(lists@) =~= Seq::empty());
    match object(&fields, &lists) {
        Ok(state) => Ok(start_actor(manifest, state)),
        Err(_) => Err(BootstrapError::Encode),
    }
}

/// What comes of writing the initial state of the content actor: the store
/// it serves.
pub open spec fn content_fs_state(store_id: Seq<char>) -> Option<Seq<u8>> {
    object_json(seq![("store_id"@, store_id)], Seq::empty())
}

/// The request that starts the content actor on the store `store_id`.
pub open spec fn start_content_fs_spec(store_id: Seq<char>) -> Result<
    ManagementCommandView,
    BootstrapError,
> {
    start_actor_spec(CONTENT_FS_MANIFEST@, content_fs_state(store_id))
}

/// Builds the request that starts the content actor on the store `store_id`.
///
/// The request is built whenever its initial state is written; else the
/// result is `Encode`.
pub fn start_content_fs(store_id: &str) -> (r: Result<ManagementCommand, BootstrapError>)
    ensures
        match start_content_fs_spec(store_id@) {
            Ok(command) => r is Ok && r->Ok_0@ == command,
            Err(error) => r == Err::<ManagementCommand, BootstrapError>(error),
        },
{
    let mut fields: Vec<(String, String)> = Vec::new();
    fields.push(("store_id".to_owned(), store_id.to_owned()));
    assert(text_fields(fields@) =~= seq![("store_id"@, store_id@)]);
    start_with_fields(CONTENT_FS_MANIFEST, fields)
}

/// What comes of writing the initial state of the uploader: the content
/// actor it uploads to.
pub open spec fn actor_uploader_state(content_fs_id: Seq<char>) -> Option<Seq<u8>> {
    object_json(seq![("runtime_content_fs_address"@, content_fs_id)], Seq::empty())
}

/// The request that starts the uploader of the template child actor.
pub open spec fn start_actor_uploader_spec(content_fs_id: Seq<char>) -> Result<
    ManagementCommandView,
    BootstrapError,
> {
    start_actor_spec(ACTOR_UPLOADER_MANIFEST@, actor_uploader_state(content_fs_id))
}

/// Builds the request that starts the uploader of the template child actor.
///
/// The request is built whenever its initial state is written; else the
/// result is `Encode`.
pub fn start_actor_uploader(content_fs_id: &str) -> (r: Result<ManagementCommand, BootstrapError>)
    ensures
        match start_actor_uploader_spec(content_fs_id@) {
            Ok(command) => r is Ok && r->Ok_0@ == command,
            Err(error) => r == Err::<ManagementCommand, BootstrapError>(error),
        },
{
    let mut fields: Vec<(String, String)> = Vec::new();
    fields.push(("runtime_content_fs_address".to_owned(), content_fs_id.to_owned()));
    assert(text_fields(fields@) =~= seq![("runtime_content_fs_address"@, content_fs_id@)]);
    start_with_fields(ACTOR_UPLOADER_MANIFEST, fields)
}

/// What comes of writing the initial state of the manager: its build store,
/// the content actor, and the API key it works with.
pub open spec fn manager_state(
    build_store_id: Seq<char>,
    content_fs_id: Seq<char>,
    api_key: Seq<char>,
) -> Option<Seq<u8>> {
    object_json(
        seq![
            ("build_store_id"@, build_store_id),
            ("runtime_content_fs_actor_id"@, content_fs_id),
            ("anthropic_api_key"@, api_key),
        ],
        Seq::empty(),
    )
}

/// The request that starts the manager actor. Without an API key there is
/// none.
pub open spec fn start_manager_actor_spec(
    build_store_id: Seq<char>,
    content_fs_id: Seq<char>,
    api_key: Option<Seq<char>>,
) -> Result<ManagementCommandView, BootstrapError> {
    match api_key {
        Some(key) => start_actor_spec(
            MANAGER_MANIFEST@,
            manager_state(build_store_id, content_fs_id, key),
        ),
        None => Err(BootstrapError::MissingApiKey),
    }
}

/// The text that an optional string slice holds.
pub open spec fn slice_text_of(value: Option<&str>) -> Option<Seq<char>> {
    match value {
        Some(text) => Some(text@),
        None => None,
    }
}

/// Builds the request that starts the manager actor.
///
/// Fails with `MissingApiKey` exactly when no API key is given. With a key,
/// the request is built whenever its initial state is written; else the
/// result is `Encode`.
pub fn start_manager_actor(build_store_id: &str, content_fs_id: &str, api_key: Option<&str>) -> (r:
    Result<ManagementCommand, BootstrapError>)
    ensures
        match start_manager_actor_spec(build_store_id@, content_fs_id@, slice_text_of(api_key)) {
            Ok(command) => r is Ok && r->Ok_0@ == command,
            Err(error) => r == Err::<ManagementCommand, BootstrapError>(error),
        },
{
    match api_key {
        None => Err(BootstrapError::MissingApiKey),
        Some(key) => {
            let mut fields: Vec<(String, String)> = Vec::new();
            fields.push(("build_store_id".to_owned(), build_store_id.to_owned()));
            fields.push(("runtime_content_fs_actor_id".to_owned(), content_fs_id.to_owned()));
            fields.push(("anthropic_api_key".to_owned(), key.to_owned()));
            assert(text_fields(fields@) =~= seq![
                ("build_store_id"@, build_store_id@),
                ("runtime_content_fs_actor_id"@, content_fs_id@),
                ("anthropic_api_key"@, key@),
            ]);
            start_with_fields(MANAGER_MANIFEST, fields)
        },
    }
}

/// What comes of writing the question that asks an actor how it is.
pub open spec fn health_question() -> Option<Seq<u8>> {
    object_json(seq![("action"@, "get-info"@)], seq![("params"@, Seq::<Seq<char>>::empty())])
}

/// The request that sends `data` to the actor `id` and asks for its answer.
pub fn request_actor_message(id: &str, data: Vec<u8>) -> (command: ManagementCommand)
    ensures
        command@ == (ManagementCommandView::RequestActorMessage { id: id@, data: data@ }),
{
    ManagementCommand::RequestActorMessage { id: id.to_owned(), data }
}

/// The request that asks the actor `id` how it is.
pub open spec fn check_health_spec(id: Seq<char>) -> Result<ManagementCommandView, BootstrapError> {
    match health_question() {
        Some(text) => Ok(ManagementCommandView::RequestActorMessage { id, data: text }),
        None => Err(BootstrapError::Encode),
    }
}

/// Builds the request that asks the actor `id` how it is.
///
/// The request is built whenever the question is written; else the result
/// is `Encode`.
pub fn check_health(id: &str) -> (r: Result<ManagementCommand, BootstrapError>)
    ensures
        match check_health_spec(id@) {
            Ok(command) => r is Ok && r->Ok_0@ == command,
            Err(error) => r == Err::<ManagementCommand, BootstrapError>(error),
        },
{
    let mut texts: Vec<(String, String)> = Vec::new();
    texts.push(("action".to_owned(), "get-info".to_owned()));
    let mut lists: Vec<(String, Vec<String>)> = Vec::new();
    let params: Vec<String> = Vec::new();
    lists.push(("params".to_owned(), params));
    proof {
        assert(text_fields(texts@) =~= seq![("action"@, "get-info"@)]);
        assert(params@.map_values(|item: String| item@) =~= Seq::<Seq<char>>::empty());
        assert(list_fields(lists@) =~= seq![("params"@, Seq::<Seq<char>>::empty())]);
    }
    match object(&texts, &lists) {
        Ok(data) => Ok(request_actor_message(id, data)),
        Err(_) => Err(BootstrapError::Encode),
    }
}

/// What the answer to a request for a new store means.
pub open spec fn store_created_spec(reply: InboundView) -> Result<Seq<char>, BootstrapError> {
    match reply {
        InboundView::Response(ManagementResponseView::StoreCreated { store_id }) => Ok(store_id),
        InboundView::Response(_) => Err(BootstrapError::UnexpectedResponse),
        InboundView::Malformed => Err(BootstrapError::Malformed),
        InboundView::EndOfStream => Err(BootstrapError::NoResponse),
        InboundView::Failed(error) => Err(BootstrapError::Transport(error)),
    }
}

/// Reads the answer to a request for a new store: the id of the store.
pub fn store_created(reply: Inbound) -> (r: Result<String, BootstrapError>)
    ensures
        match store_created_spec(reply@) {
            Ok(store_id) => r is Ok && r->Ok_0@ == store_id,
            Err(error) => r == Err::<String, BootstrapError>(error),
        },
{
    match reply {
        Inbound::Response(ManagementResponse::StoreCreated { store_id }) => Ok(store_id),
        Inbound::Response(_) => Err(BootstrapError::UnexpectedResponse),
        Inbound::Malformed => Err(BootstrapError::Malformed),
        Inbound::EndOfStream => Err(BootstrapError::NoResponse),
        Inbound::Failed(error) => Err(BootstrapError::Transport(error)),
    }
}

/// What the answer to a request to start an actor means.
pub open spec fn actor_started_spec(reply: InboundView) -> Result<Seq<char>, BootstrapError> {
    match reply {
        InboundView::Response(ManagementResponseView::ActorStarted { id }) => Ok(id),
        InboundView::Response(_) => Err(BootstrapError::UnexpectedResponse),
        InboundView::Malformed => Err(BootstrapError::Malformed),
        InboundView::EndOfStream => Err(BootstrapError::NoResponse),
        InboundView::Failed(error) => Err(BootstrapError::Transport(error)),
    }
}

/// Reads the answer to a request to start an actor: the id of the actor.
pub fn actor_started(reply: Inbound) -> (r: Result<String, BootstrapError>)
    ensures
        match actor_started_spec(reply@) {
            Ok(id) => r is Ok && r->Ok_0@ == id,
            Err(error) => r == Err::<String, BootstrapError>(error),
        },
{
    match reply {
        Inbound::Response(ManagementResponse::ActorStarted { id }) => Ok(id),
        Inbound::Response(_) => Err(BootstrapError::UnexpectedResponse),
        Inbound::Malformed => Err(BootstrapError::Malformed),
        Inbound::EndOfStream => Err(BootstrapError::NoResponse),
        Inbound::Failed(error) => Err(BootstrapError::Transport(error)),
    }
}

/// What the answer to the question how an actor is means.
///
/// The answer is a requested message, or a payload of the actor's own that
/// is no management response. What the answer says is not looked into.
pub open spec fn health_checked_spec(reply: InboundView) -> Result<(), BootstrapError> {
    match reply {
        InboundView::Response(ManagementResponseView::RequestedMessage { .. }) => Ok(()),
        InboundView::Response(_) => Err(BootstrapError::UnexpectedResponse),
        InboundView::Malformed => Ok(()),
        InboundView::EndOfStream => Err(BootstrapError::NoResponse),
        InboundView::Failed(error) => Err(BootstrapError::Transport(error)),
    }
}

/// Reads the answer to the question how an actor is.
pub fn health_checked(reply: Inbound) -> (r: Result<(), BootstrapError>)
    ensures
        r == health_checked_spec(reply@),
{
    match reply {
        Inbound::Response(ManagementResponse::RequestedMessage { id: _, message: _ }) => Ok(()),
        Inbound::Response(_) => Err(BootstrapError::UnexpectedResponse),
        Inbound::Malformed => Ok(()),
        Inbound::EndOfStream => Err(BootstrapError::NoResponse),
        Inbound::Failed(error) => Err(BootstrapError::Transport(error)),
    }
}

} // verus!
