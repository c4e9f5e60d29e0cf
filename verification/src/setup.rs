//! The setup of the system before a session exists, as a sequence of steps.
//!
//! The stores and actors that the manager needs are brought up one request
//! at a time. The caller sends each request and reports what came back for
//! it; the setup says what to show to the user and what to send next.

use crate::bootstrap::{
    actor_started, actor_started_spec, check_health, check_health_spec, choose_store,
    choose_store_spec, create_store, health_checked, health_checked_spec, start_actor_uploader,
    start_actor_uploader_spec, start_content_fs, start_content_fs_spec, start_manager_actor,
    start_manager_actor_spec, store_created, store_created_spec, BootstrapError, StoreChoice,
    StoreChoiceView,
};
use crate::protocol::{text_of, texts_of, ManagementCommand, ManagementCommandView};
use crate::session::{Inbound, InboundView};
use vstd::prelude::*;
use vstd::string::StringExecFns;

verus! {

/// How far the setup has come, with the ids gathered on the way.
#[derive(Clone, Debug, PartialEq, Eq)]
#[allow(inconsistent_fields)]
pub enum Stage {
    /// The runtime store is being created.
    Store { build_store_id: Option<String> },
    /// The build store is being created.
    BuildStore { store_id: String },
    /// The content actor is being started.
    ContentFs { store_id: String, build_store_id: String },
    /// The content actor is being asked how it is.
    Health { store_id: String, build_store_id: String, content_fs_id: String },
    /// The uploader is being started.
    Uploader { store_id: String, build_store_id: String, content_fs_id: String },
    /// The manager is being started.
    Manager { store_id: String, build_store_id: String, content_fs_id: String },
    /// Everything runs.
    Ready { store_id: String, build_store_id: String, content_fs_id: String, manager_id: String },
    /// The setup has failed.
    Failed(BootstrapError),
}

/// The view of [`Stage`].
#[allow(inconsistent_fields)]
pub enum StageView {
    Store { build_store_id: Option<Seq<char>> },
    BuildStore { store_id: Seq<char> },
    ContentFs { store_id: Seq<char>, build_store_id: Seq<char> },
    Health { store_id: Seq<char>, build_store_id: Seq<char>, content_fs_id: Seq<char> },
    Uploader { store_id: Seq<char>, build_store_id: Seq<char>, content_fs_id: Seq<char> },
    Manager { store_id: Seq<char>, build_store_id: Seq<char>, content_fs_id: Seq<char> },
    Ready {
        store_id: Seq<char>,
        build_store_id: Seq<char>,
        content_fs_id: Seq<char>,
        manager_id: Seq<char>,
    },
    Failed(BootstrapError),
}

impl View for Stage {
    type V = StageView;

    open spec fn view(&self) -> StageView {
        match self {
            Stage::Store { build_store_id } => StageView::Store {
                build_store_id: text_of(*build_store_id),
            },
            Stage::BuildStore { store_id } => StageView::BuildStore { store_id: store_id@ },
            Stage::ContentFs { store_id, build_store_id } => StageView::ContentFs {
                store_id: store_id@,
                build_store_id: build_store_id@,
            },
            Stage::Health { store_id, build_store_id, content_fs_id } => StageView::Health {
                store_id: store_id@,
                build_store_id: build_store_id@,
                content_fs_id: content_fs_id@,
            },
            Stage::Uploader { store_id, build_store_id, content_fs_id } => StageView::Uploader {
                store_id: store_id@,
                build_store_id: build_store_id@,
                content_fs_id: content_fs_id@,
            },
            Stage::Manager { store_id, build_store_id, content_fs_id } => StageView::Manager {
                store_id: store_id@,
                build_store_id: build_store_id@,
                content_fs_id: content_fs_id@,
            },
            Stage::Ready { store_id, build_store_id, content_fs_id, manager_id } => {
                StageView::Ready {
                    store_id: store_id@,
                    build_store_id: build_store_id@,
                    content_fs_id: content_fs_id@,
                    manager_id: manager_id@,
                }
            },
            Stage::Failed(error) => StageView::Failed(*error),
        }
    }
}

/// What the caller has to do next: show the notices, then send the request
/// and report what comes back for it. No request means the setup has come
/// to its end, ready or failed.
#[derive(Clone, Debug, PartialEq, Eq)]
pub struct Step {
    pub notices: Vec<String>,
    pub request: Option<ManagementCommand>,
}

/// The view of [`Step`].
pub struct StepView {
    pub notices: Seq<Seq<char>>,
    pub request: Option<ManagementCommandView>,
}

impl View for Step {
    type V = StepView;

    open spec fn view(&self) -> StepView {
        StepView {
            notices: texts_of(self.notices@),
            request: match self.request {
                Some(request) => Some(request@),
                None => None,
            },
        }
    }
}

/// The state of the setup: what was asked for, and how far it has come.
pub struct SetupView {
    pub new_store: bool,
    pub api_key: Option<Seq<char>>,
    pub stage: StageView,
}

/// The step that sends `request` for `stage`, or the step that ends the
/// setup where there is no request to send. The notices are shown either
/// way.
pub open spec fn ask_spec(
    stage: StageView,
    notices: Seq<Seq<char>>,
    request: Result<ManagementCommandView, BootstrapError>,
) -> (StageView, StepView) {
    match request {
        Ok(command) => (stage, StepView { notices, request: Some(command) }),
        Err(error) => (StageView::Failed(error), StepView { notices, request: None }),
    }
}

/// The step that begins `stage`, after `notices` have been gathered: what
/// the user is told about the stage, and the request that the stage waits
/// on. A stage whose request cannot be built fails as it begins: the
/// manager without an API key, and any stage whose document is not written.
pub open spec fn enter_spec(
    api_key: Option<Seq<char>>,
    stage: StageView,
    notices: Seq<Seq<char>>,
) -> (StageView, StepView) {
    match stage {
        StageView::Store { .. } => ask_spec(
            stage,
            notices,
            Ok(ManagementCommandView::NewStore {  }),
        ),
        StageView::BuildStore { .. } => ask_spec(
            stage,
            notices.push("Creating new build store..."@),
            Ok(ManagementCommandView::NewStore {  }),
        ),
        StageView::ContentFs { store_id, .. } => ask_spec(
            stage,
            notices,
            start_content_fs_spec(store_id),
        ),
        StageView::Health { content_fs_id, .. } => ask_spec(
            stage,
            notices.push("Checking runtime-content-fs health..."@),
            check_health_spec(content_fs_id),
        ),
        StageView::Uploader { content_fs_id, .. } => ask_spec(
            stage,
            notices.push("Starting actor uploader to upload template child actor..."@),
            start_actor_uploader_spec(content_fs_id),
        ),
        StageView::Manager { build_store_id, content_fs_id, .. } => ask_spec(
            stage,
            notices.push("Starting manager actor..."@),
            start_manager_actor_spec(build_store_id, content_fs_id, api_key),
        ),
        StageView::Ready { .. } => (stage, StepView { notices, request: None }),
        StageView::Failed(_) => (stage, StepView { notices, request: None }),
    }
}

/// The step that ends the setup with `error`.
pub open spec fn fail_spec(error: BootstrapError) -> (StageView, StepView) {
    (StageView::Failed(error), StepView { notices: Seq::empty(), request: None })
}

/// What the user is told when everything runs.
pub open spec fn ready_notices(
    store_id: Seq<char>,
    build_store_id: Seq<char>,
    content_fs_id: Seq<char>,
    manager_id: Seq<char>,
) -> Seq<Seq<char>> {
    seq![
        "Started manager actor with ID: "@ + manager_id,
        ""@,
        "System is ready with:"@,
        "  Runtime Store ID: "@ + store_id,
        "  Build Store ID: "@ + build_store_id,
        "  Runtime Content FS Actor ID: "@ + content_fs_id,
        "  Manager Actor ID: "@ + manager_id,
        ""@,
        "Starting REPL session..."@,
    ]
}

/// What the user is told when the uploader runs.
pub open spec fn uploader_notices(
    store_id: Seq<char>,
    content_fs_id: Seq<char>,
    uploader_id: Seq<char>,
) -> Seq<Seq<char>> {
    seq![
        "Started actor-uploader with ID: "@ + uploader_id,
        "Successfully created store "@ + store_id + " and started actors:"@,
        "  runtime-content-fs: "@ + content_fs_id,
        "  actor-uploader: "@ + uploader_id,
    ]
}

/// The setup as it begins.
///
/// The runtime store is created if a new one is asked for, whatever else was
/// named; else the named one is used; else the setup fails at once. The
/// build store is created unless one is named. Then the content actor is
/// started on the runtime store and asked how it is; the uploader is started
/// only beside a new store; the manager comes last.
pub open spec fn start_spec(
    new_store: bool,
    store_id: Option<Seq<char>>,
    build_store_id: Option<Seq<char>>,
    api_key: Option<Seq<char>>,
) -> (SetupView, StepView) {
    let first = match choose_store_spec(new_store, store_id) {
        Ok(StoreChoiceView::Create) => enter_spec(
            api_key,
            StageView::Store { build_store_id },
            Seq::empty(),
        ),
        Ok(StoreChoiceView::Use(store_id)) => match build_store_id {
            Some(build_store_id) => enter_spec(
                api_key,
                StageView::ContentFs { store_id, build_store_id },
                Seq::empty(),
            ),
            None => enter_spec(api_key, StageView::BuildStore { store_id }, Seq::empty()),
        },
        Err(error) => fail_spec(error),
    };
    (SetupView { new_store, api_key, stage: first.0 }, first.1)
}

/// The stage after `reply` came back for the request of `stage`, and the
/// step that begins it.
///
/// Every stage takes the answer it asked for and nothing else; any other
/// reply ends the setup. A setup that has ended stays as it is.
pub open spec fn advance_stage_spec(
    new_store: bool,
    api_key: Option<Seq<char>>,
    stage: StageView,
    reply: InboundView,
) -> (StageView, StepView) {
    match stage {
        StageView::Store { build_store_id } => {
            match store_created_spec(reply) {
                Ok(store_id) => enter_spec(
                    api_key,
                    match build_store_id {
                        Some(build_store_id) => StageView::ContentFs { store_id, build_store_id },
                        None => StageView::BuildStore { store_id },
                    },
                    seq!["Created new store with ID: "@ + store_id],
                ),
                Err(error) => fail_spec(error),
            }
        },
        StageView::BuildStore { store_id } => {
            match store_created_spec(reply) {
                Ok(build_store_id) => enter_spec(
                    api_key,
                    StageView::ContentFs { store_id, build_store_id },
                    seq!["Created new store with ID: "@ + build_store_id],
                ),
                Err(error) => fail_spec(error),
            }
        },
        StageView::ContentFs { store_id, build_store_id } => {
            match actor_started_spec(reply) {
                Ok(content_fs_id) => enter_spec(
                    api_key,
                    StageView::Health { store_id, build_store_id, content_fs_id },
                    seq!["Started runtime-content-fs with ID: "@ + content_fs_id],
                ),
                Err(error) => fail_spec(error),
            }
        },
        StageView::Health { store_id, build_store_id, content_fs_id } => {
            match health_checked_spec(reply) {
                Ok(_) => if new_store {
                    enter_spec(
                        api_key,
                        StageView::Uploader { store_id, build_store_id, content_fs_id },
                        Seq::empty(),
                    )
                } else {
                    enter_spec(
                        api_key,
                        StageView::Manager { store_id, build_store_id, content_fs_id },
                        seq![
                            "Successfully started runtime-content-fs "@ + content_fs_id
                                + " with existing store "@ + store_id,
                        ],
                    )
                },
                Err(error) => fail_spec(error),
            }
        },
        StageView::Uploader { store_id, build_store_id, content_fs_id } => {
            match actor_started_spec(reply) {
                Ok(uploader_id) => enter_spec(
                    api_key,
                    StageView::Manager { store_id, build_store_id, content_fs_id },
                    uploader_notices(store_id, content_fs_id, uploader_id),
                ),
                Err(error) => fail_spec(error),
            }
        },
        StageView::Manager { store_id, build_store_id, content_fs_id } => {
            match actor_started_spec(reply) {
                Ok(manager_id) => enter_spec(
                    api_key,
                    StageView::Ready { store_id, build_store_id, content_fs_id, manager_id },
                    ready_notices(store_id, build_store_id, content_fs_id, manager_id),
                ),
                Err(error) => fail_spec(error),
            }
        },
        StageView::Ready { .. } => (stage, StepView { notices: Seq::empty(), request: None }),
        StageView::Failed(_) => (stage, StepView { notices: Seq::empty(), request: None }),
    }
}

/// The setup after `reply` came back for its last request, and the step
/// that follows.
pub open spec fn advance_spec(s: SetupView, reply: InboundView) -> (SetupView, StepView) {
    let next = advance_stage_spec(s.new_store, s.api_key, s.stage, reply);
    (SetupView { new_store: s.new_store, api_key: s.api_key, stage: next.0 }, next.1)
}

/// A line made of a label and a value.
fn labelled(label: &str, value: &str) -> (line: String)
    ensures
        line@ == label@ + value@,
{
    let mut line = String::from_str(label);
    line.append(value);
    line
}

/// The step that sends `request` for `stage`, or the step that ends the
/// setup where there is no request to send.
fn ask(
    stage: Stage,
    notices: Vec<String>,
    request: Result<ManagementCommand, BootstrapError>,
) -> (r: (Stage, Step))
    ensures
        match request {
            Ok(command) => (r.0@, r.1@) == ask_spec(
                stage@,
                texts_of(notices@),
                Ok::<ManagementCommandView, BootstrapError>(command@),
            ),
            Err(error) => (r.0@, r.1@) == ask_spec(
                stage@,
                texts_of(notices@),
                Err::<ManagementCommandView, BootstrapError>(error),
            ),
        },
{
    match request {
        Ok(command) => (stage, Step { notices, request: Some(command) }),
        Err(error) => (Stage::Failed(error), Step { notices, request: None }),
    }
}

/// Begins `stage`: adds what the user is told about it to `notices` and
/// builds the request it waits on.
fn enter(api_key: &Option<String>, stage: Stage, notices: Vec<String>) -> (r: (Stage, Step))
    ensures
        (r.0@, r.1@) == enter_spec(text_of(*api_key), stage@, texts_of(notices@)),
{
    let mut notices = notices;
    let ghost before = texts_of(notices@);
    match &stage {
        Stage::Store { build_store_id: _ } => ask(stage, notices, Ok(create_store())),
        Stage::BuildStore { store_id: _ } => {
            notices.push(String::from_str("Creating new build store..."));
            assert(texts_of(notices@) =~= before.push("Creating new build store..."@));
            ask(stage, notices, Ok(create_store()))
        },
        Stage::ContentFs { store_id, build_store_id: _ } => {
            let request = start_content_fs(store_id.as_str());
            ask(stage, notices, request)
        },
        Stage::Health { store_id: _, build_store_id: _, content_fs_id } => {
            notices.push(String::from_str("Checking runtime-content-fs health..."));
            assert(texts_of(notices@) =~= before.push("Checking runtime-content-fs health..."@));
            let request = check_health(content_fs_id.as_str());
            ask(stage, notices, request)
        },
        Stage::Uploader { store_id: _, build_store_id: _, content_fs_id } => {
            notices.push(
                String::from_str("Starting actor uploader to upload template child actor..."),
            );
            assert(texts_of(notices@) =~= before.push(
                "Starting actor uploader to upload template child actor..."@,
            ));
            let request = start_actor_uploader(content_fs_id.as_str());
            ask(stage, notices, request)
        },
        Stage::Manager { store_id: _, build_store_id, content_fs_id } => {
            notices.push(String::from_str("Starting manager actor..."));
            assert(texts_of(notices@) =~= before.push("Starting manager actor..."@));
            let key: Option<&str> = match api_key {
                Some(key) => Some(key.as_str()),
                None => None,
            };
            let request = start_manager_actor(build_store_id.as_str(), content_fs_id.as_str(), key);
            ask(stage, notices, request)
        },
        Stage::Ready { store_id: _, build_store_id: _, content_fs_id: _, manager_id: _ } => {
            (stage, Step { notices, request: None })
        },
        Stage::Failed(_) => (stage, Step { notices, request: None }),
    }
}

/// Ends the setup with `error`.
fn fail(error: BootstrapError) -> (r: (Stage, Step))
    ensures
        (r.0@, r.1@) == fail_spec(error),
{
    let step = Step { notices: Vec::new(), request: None };
    assert(step@.notices =~= Seq::<Seq<char>>::empty());
    (Stage::Failed(error), step)
}

/// The setup of the system before a session: the stores and actors that the
/// manager needs, brought up one request at a time.
pub struct Setup {
    new_store: bool,
    api_key: Option<String>,
    stage: Stage,
}

impl View for Setup {
    type V = SetupView;

    closed spec fn view(&self) -> SetupView {
        SetupView { new_store: self.new_store, api_key: text_of(self.api_key), stage: self.stage@ }
    }
}

impl Setup {
    /// Begins the setup and gives its first step.
    pub fn start(
        new_store: bool,
        store_id: Option<String>,
        build_store_id: Option<String>,
        api_key: Option<String>,
    ) -> (r: (Setup, Step))
        ensures
            (r.0@, r.1@) == start_spec(
                new_store,
                text_of(store_id),
                text_of(build_store_id),
                text_of(api_key),
            ),
    {
        let first = match choose_store(new_store, store_id) {
            Ok(StoreChoice::Create) => {
                let notices: Vec<String> = Vec::new();
                assert(texts_of(notices@) =~= Seq::<Seq<char>>::empty());
                enter(&api_key, Stage::Store { build_store_id }, notices)
            },
            Ok(StoreChoice::Use(store_id)) => {
                let notices: Vec<String> = Vec::new();
                assert(texts_of(notices@) =~= Seq::<Seq<char>>::empty());
                match build_store_id {
                    Some(build_store_id) => enter(
                        &api_key,
                        Stage::ContentFs { store_id, build_store_id },
                        notices,
                    ),
                    None => enter(&api_key, Stage::BuildStore { store_id }, notices),
                }
            },
            Err(error) => fail(error),
        };
        (Setup { new_store, api_key, stage: first.0 }, first.1)
    }

    /// How far the setup has come.
    pub fn stage(&self) -> (stage: &Stage)
        ensures
            stage@ == self@.stage,
    {
        &self.stage
    }

    /// Takes in what came back for the last request and gives the next step.
    pub fn advance(self, reply: Inbound) -> (r: (Setup, Step))
        ensures
            (r.0@, r.1@) == advance_spec(self@, reply@),
    {
        let Setup { new_store, api_key, stage } = self;
        let next = match stage {
            Stage::Store { build_store_id } => match store_created(reply) {
                Ok(store_id) => {
                    let mut notices: Vec<String> = Vec::new();
                    notices.push(labelled("Created new store with ID: ", store_id.as_str()));
                    assert(texts_of(notices@) =~= seq!["Created new store with ID: "@ + store_id@]);
                    match build_store_id {
                        Some(build_store_id) => enter(
                            &api_key,
                            Stage::ContentFs { store_id, build_store_id },
                            notices,
                        ),
                        None => enter(&api_key, Stage::BuildStore { store_id }, notices),
                    }
                },
                Err(error) => fail(error),
            },
            Stage::BuildStore { store_id } => match store_created(reply) {
                Ok(build_store_id) => {
                    let mut notices: Vec<String> = Vec::new();
                    notices.push(labelled("Created new store with ID: ", build_store_id.as_str()));
                    assert(texts_of(notices@) =~= seq![
                        "Created new store with ID: "@ + build_store_id@,
                    ]);
                    enter(&api_key, Stage::ContentFs { store_id, build_store_id }, notices)
                },
                Err(error) => fail(error),
            },
            Stage::ContentFs { store_id, build_store_id } => match actor_started(reply) {
                Ok(content_fs_id) => {
                    let mut notices: Vec<String> = Vec::new();
                    notices.push(
                        labelled("Started runtime-content-fs with ID: ", content_fs_id.as_str()),
                    );
                    assert(texts_of(notices@) =~= seq![
                        "Started runtime-content-fs with ID: "@ + content_fs_id@,
                    ]);
                    enter(
                        &api_key,
                        Stage::Health { store_id, build_store_id, content_fs_id },
                        notices,
                    )
                },
                Err(error) => fail(error),
            },
            Stage::Health { store_id, build_store_id, content_fs_id } => {
                match health_checked(reply) {
                    Ok(_) => {
                        let mut notices: Vec<String> = Vec::new();
                        if new_store {
                            assert(texts_of(notices@) =~= Seq::<Seq<char>>::empty());
                            enter(
                                &api_key,
                                Stage::Uploader { store_id, build_store_id, content_fs_id },
                                notices,
                            )
                        } else {
                            let mut line = labelled(
                                "Successfully started runtime-content-fs ",
                                content_fs_id.as_str(),
                            );
                            line.append(" with existing store ");
                            line.append(store_id.as_str());
                            notices.push(line);
                            assert(texts_of(notices@) =~= seq![line@]);
                            enter(
                                &api_key,
                                Stage::Manager { store_id, build_store_id, content_fs_id },
                                notices,
                            )
                        }
                    },
                    Err(error) => fail(error),
                }
            },
            Stage::Uploader { store_id, build_store_id, content_fs_id } => {
                match actor_started(reply) {
                    Ok(uploader_id) => {
                        let mut created = String::from_str("Successfully created store ");
                        created.append(store_id.as_str());
                        created.append(" and started actors:");
                        let mut notices: Vec<String> = Vec::new();
                        notices.push(
                            labelled("Started actor-uploader with ID: ", uploader_id.as_str()),
                        );
                        notices.push(created);
                        notices.push(labelled("  runtime-content-fs: ", content_fs_id.as_str()));
                        notices.push(labelled("  actor-uploader: ", uploader_id.as_str()));
                        assert(texts_of(notices@) =~= uploader_notices(
                            store_id@,
                            content_fs_id@,
                            uploader_id@,
                        ));
                        enter(
                            &api_key,
                            Stage::Manager { store_id, build_store_id, content_fs_id },
                            notices,
                        )
                    },
                    Err(error) => fail(error),
                }
            },
            Stage::Manager { store_id, build_store_id, content_fs_id } => {
                match actor_started(reply) {
                    Ok(manager_id) => {
                        let mut notices: Vec<String> = Vec::new();
                        notices.push(
                            labelled("Started manager actor with ID: ", manager_id.as_str()),
                        );
                        notices.push(String::from_str(""));
                        notices.push(String::from_str("System is ready with:"));
                        notices.push(labelled("  Runtime Store ID: ", store_id.as_str()));
                        notices.push(labelled("  Build Store ID: ", build_store_id.as_str()));
                        notices.push(
                            labelled("  Runtime Content FS Actor ID: ", content_fs_id.as_str()),
                        );
                        notices.push(labelled("  Manager Actor ID: ", manager_id.as_str()));
                        notices.push(String::from_str(""));
                        notices.push(String::from_str("Starting REPL session..."));
                        assert(texts_of(notices@) =~= ready_notices(
                            store_id@,
                            build_store_id@,
                            content_fs_id@,
                            manager_id@,
                        ));
                        enter(
                            &api_key,
                            Stage::Ready { store_id, build_store_id, content_fs_id, manager_id },
                            notices,
                        )
                    },
                    Err(error) => fail(error),
                }
            },
            Stage::Ready { store_id, build_store_id, content_fs_id, manager_id } => {
                let step = Step { notices: Vec::new(), request: None };
                assert(step@.notices =~= Seq::<Seq<char>>::empty());
                (Stage::Ready { store_id, build_store_id, content_fs_id, manager_id }, step)
            },
            Stage::Failed(error) => {
                let step = Step { notices: Vec::new(), request: None };
                assert(step@.notices =~= Seq::<Seq<char>>::empty());
                (Stage::Failed(error), step)
            },
        };
        (Setup { new_store, api_key, stage: next.0 }, next.1)
    }
}

} // verus!
