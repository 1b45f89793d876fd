//! A facade for an embedding application: one manager, driven by a policy
//! of starting at once, and a snapshot of its state to hand on.

use vstd::prelude::*;

use crate::config::{info_outcome, ServerInfo, ServerInfoView, TauriConfig, TauriConfigView};
use crate::error::{unit_outcome, ServerError, ServerErrorView};
use crate::json::{lemma_object_view, JsonValue, JsonView};
use crate::manager::{server_url, ManagerView, VscodeServerManager};

verus! {

/// The time between the stop and the start of a restart, in milliseconds.
pub const RESTART_DELAY_MS: u64 = 500;

/// A manager together with the policy by which an application drives it.
pub struct TauriVscodeServer {
    manager: VscodeServerManager,
    config: TauriConfig,
}

/// The state of a facade: that of its manager, and its policy.
pub struct FacadeView {
    /// The state of the manager.
    pub manager: ManagerView,
    /// The policy that the facade was made with.
    pub config: TauriConfigView,
}

impl View for TauriVscodeServer {
    type V = FacadeView;

    closed spec fn view(&self) -> FacadeView {
        FacadeView { manager: self.manager@, config: self.config@ }
    }
}

/// What the caller reports back while the facade is initialized.
#[derive(Debug, PartialEq, Eq)]
pub enum InitEvent {
    /// Nothing yet: the initialization begins.
    Begin,
    /// How making sure of the server ended.
    Ensured(Result<(), ServerError>),
    /// How the start of the server ended.
    Started(Result<(), ServerError>),
}

/// What is to happen next while the facade is initialized.
#[derive(Debug, PartialEq, Eq)]
pub enum InitStep {
    /// Make sure that the server is installed.
    Ensure,
    /// Start the server.
    Start,
    /// The initialization has ended, with this outcome.
    Done(Result<ServerInfo, ServerError>),
}

/// An event of the initialization with its texts as character sequences.
pub enum InitEventView {
    Begin,
    Ensured(Result<(), ServerErrorView>),
    Started(Result<(), ServerErrorView>),
}

/// A step of the initialization with its texts as character sequences.
pub enum InitStepView {
    Ensure,
    Start,
    Done(Result<ServerInfoView, ServerErrorView>),
}

impl View for InitEvent {
    type V = InitEventView;

    open spec fn view(&self) -> InitEventView {
        match self {
            InitEvent::Begin => InitEventView::Begin,
            InitEvent::Ensured(outcome) => InitEventView::Ensured(unit_outcome(*outcome)),
            InitEvent::Started(outcome) => InitEventView::Started(unit_outcome(*outcome)),
        }
    }
}

impl View for InitStep {
    type V = InitStepView;

    open spec fn view(&self) -> InitStepView {
        match self {
            InitStep::Ensure => InitStepView::Ensure,
            InitStep::Start => InitStepView::Start,
            InitStep::Done(outcome) => InitStepView::Done(info_outcome(*outcome)),
        }
    }
}

/// What the caller reports back while the server is restarted.
#[derive(Debug, PartialEq, Eq)]
pub enum RestartEvent {
    /// Nothing yet: the restart begins.
    Begin,
    /// How the stop of the server ended.
    Stopped(Result<(), ServerError>),
    /// The pause between stop and start is over.
    Paused,
    /// How the start of the server ended.
    Started(Result<(), ServerError>),
}

/// What is to happen next while the server is restarted.
#[derive(Debug, PartialEq, Eq)]
pub enum RestartStep {
    /// Stop the server.
    Stop,
    /// Pause for this many milliseconds.
    Pause { millis: u64 },
    /// Start the server.
    Start,
    /// The restart has ended, with this outcome.
    Done(Result<(), ServerError>),
}

/// An event of a restart with its texts as character sequences.
pub enum RestartEventView {
    Begin,
    Stopped(Result<(), ServerErrorView>),
    Paused,
    Started(Result<(), ServerErrorView>),
}

/// A step of a restart with its texts as character sequences.
pub enum RestartStepView {
    Stop,
    Pause { millis: u64 },
    Start,
    Done(Result<(), ServerErrorView>),
}

impl View for RestartEvent {
    type V = RestartEventView;

    open spec fn view(&self) -> RestartEventView {
        match self {
            RestartEvent::Begin => RestartEventView::Begin,
            RestartEvent::Stopped(outcome) => RestartEventView::Stopped(unit_outcome(*outcome)),
            RestartEvent::Paused => RestartEventView::Paused,
            RestartEvent::Started(outcome) => RestartEventView::Started(unit_outcome(*outcome)),
        }
    }
}

impl View for RestartStep {
    type V = RestartStepView;

    open spec fn view(&self) -> RestartStepView {
        match self {
            RestartStep::Stop => RestartStepView::Stop,
            RestartStep::Pause { millis } => RestartStepView::Pause { millis: *millis },
            RestartStep::Start => RestartStepView::Start,
            RestartStep::Done(outcome) => RestartStepView::Done(unit_outcome(*outcome)),
        }
    }
}

/// The step that follows an event of a restart: stop, pause, start. A
/// failed stop ends the restart; the outcome of the start is that of the
/// restart.
pub open spec fn restart_step(event: RestartEventView) -> RestartStepView {
    match event {
        RestartEventView::Begin => RestartStepView::Stop,
        RestartEventView::Stopped(Err(e)) => RestartStepView::Done(Err(e)),
        RestartEventView::Stopped(Ok(_)) => RestartStepView::Pause { millis: RESTART_DELAY_MS },
        RestartEventView::Paused => RestartStepView::Start,
        RestartEventView::Started(outcome) => RestartStepView::Done(outcome),
    }
}

/// The document that describes a connection token: its text, or null.
pub open spec fn token_document(token: Option<Seq<char>>) -> JsonView {
    match token {
        Some(t) => JsonView::Text(t),
        None => JsonView::Null,
    }
}

/// The snapshot of a manager for which the release `info` is resolved: the
/// server's address, the identifiers of the release and its platform, and
/// what a client needs to connect, the token included.
pub open spec fn status_snapshot(manager: ManagerView, info: ServerInfoView) -> JsonView {
    JsonView::Object(
        seq![
            ("serverUrl"@, JsonView::Text(server_url(manager.config))),
            ("monacoApiVersion"@, JsonView::Text(info.monaco_api_version)),
            ("vscodeCommit"@, JsonView::Text(info.vscode_commit)),
            ("platform"@, JsonView::Text(info.platform.flavor())),
            (
                "serviceConfig"@,
                JsonView::Object(
                    seq![
                        ("baseUrl"@, JsonView::Text(server_url(manager.config))),
                        ("connectionToken"@, token_document(manager.config.connection_token)),
                    ],
                ),
            ),
        ],
    )
}

impl FacadeView {
    /// The outcome of an initialization that got as far as it was meant
    /// to: the resolved release, which must be there.
    pub open spec fn resolved(self) -> Result<ServerInfoView, ServerErrorView> {
        match self.manager.info {
            Some(info) => Ok(info),
            None => Err(ServerErrorView::ServerNotFound),
        }
    }

    /// The step that follows an event of the initialization: make sure of
    /// the server, start it where the policy says so, and hand out the
    /// resolved release. Failures pass through as they are.
    pub open spec fn initialize(self, event: InitEventView) -> InitStepView {
        match event {
            InitEventView::Begin => InitStepView::Ensure,
            InitEventView::Ensured(Err(e)) => InitStepView::Done(Err(e)),
            InitEventView::Ensured(Ok(_)) => if self.config.auto_start {
                InitStepView::Start
            } else {
                InitStepView::Done(self.resolved())
            },
            InitEventView::Started(Err(e)) => InitStepView::Done(Err(e)),
            InitEventView::Started(Ok(_)) => InitStepView::Done(self.resolved()),
        }
    }
}

impl TauriVscodeServer {
    /// A facade with the policy and server configuration of `config`. This
    /// never fails.
    pub fn new(config: TauriConfig) -> (made: Result<Self, ServerError>)
        ensures
            made is Ok,
            made->Ok_0@ == (FacadeView {
                manager: ManagerView::fresh(config.server@),
                config: config@,
            }),
    {
        match VscodeServerManager::with_config(config.server.clone()) {
            Ok(manager) => Ok(TauriVscodeServer { manager, config }),
            Err(e) => Err(e),
        }
    }

    /// Initializes the server, one step at a time: given what the caller
    /// reported, says what to do next or how the initialization ended. The
    /// caller begins with `Begin`, performs each step that is asked for on
    /// this facade and reports how it went.
    pub fn initialize(&self, event: InitEvent) -> (step: InitStep)
        ensures
            step@ == self@.initialize(event@),
    {
        match event {
            InitEvent::Begin => InitStep::Ensure,
            InitEvent::Ensured(Err(e)) => InitStep::Done(Err(e)),
            InitEvent::Ensured(Ok(_)) => {
                if self.config.auto_start {
                    InitStep::Start
                } else {
                    InitStep::Done(self.resolved_info())
                }
            },
            InitEvent::Started(Err(e)) => InitStep::Done(Err(e)),
            InitEvent::Started(Ok(_)) => InitStep::Done(self.resolved_info()),
        }
    }

    fn resolved_info(&self) -> (info: Result<ServerInfo, ServerError>)
        ensures
            info_outcome(info) == self@.resolved(),
    {
        match self.manager.info() {
            Some(info) => Ok(info.clone()),
            None => Err(ServerError::ServerNotFound),
        }
    }

    /// The manager behind the facade, to be driven through the steps that
    /// an initialization or a restart asks for. The policy stays as it is.
    pub fn manager_mut(&mut self) -> (manager: &mut VscodeServerManager)
        ensures
            manager@ == old(self)@.manager,
            final(self)@ == (FacadeView { manager: final(manager)@, ..old(self)@ }),
    {
        &mut self.manager
    }

    /// The policy and configuration that the facade was made with.
    pub fn config(&self) -> (config: &TauriConfig)
        ensures
            config@ == self@.config,
    {
        &self.config
    }

    /// The address at which the server is reached once it runs.
    pub fn get_url(&self) -> (url: String)
        ensures
            url@ == server_url(self@.manager.config),
    {
        self.manager.url()
    }

    /// A snapshot of the server for a dependent application: its address,
    /// the resolved release and what a client needs to connect. Before a
    /// release is resolved there is nothing to describe.
    pub fn get_info(&self) -> (snapshot: Result<JsonValue, ServerError>)
        ensures
            match snapshot {
                Ok(doc) => self@.manager.info is Some && doc@ == status_snapshot(
                    self@.manager,
                    self@.manager.info->0,
                ),
                Err(e) => self@.manager.info is None && e@ == ServerErrorView::ServerNotFound,
            },
    {
        let info = match self.manager.info() {
            Some(info) => info,
            None => {
                return Err(ServerError::ServerNotFound);
            },
        };
        let token = match &self.manager.config().connection_token {
            Some(t) => JsonValue::Text(t.clone()),
            None => JsonValue::Null,
        };
        let mut service: Vec<(String, JsonValue)> = Vec::new();
        service.push((String::from_str("baseUrl"), JsonValue::Text(self.manager.url())));
        service.push((String::from_str("connectionToken"), token));
        let service = JsonValue::Object(service);
        let mut members: Vec<(String, JsonValue)> = Vec::new();
        members.push((String::from_str("serverUrl"), JsonValue::Text(self.manager.url())));
        members.push(
            (
                String::from_str("monacoApiVersion"),
                JsonValue::Text(info.monaco_api_version.clone()),
            ),
        );
        members.push((String::from_str("vscodeCommit"), JsonValue::Text(info.vscode_commit.clone())));
        members.push((String::from_str("platform"), JsonValue::Text(info.platform.to_string())));
        members.push((String::from_str("serviceConfig"), service));
        let doc = JsonValue::Object(members);
        proof {
            lemma_object_view(service);
            lemma_object_view(doc);
            let inner = seq![
                ("baseUrl"@, JsonView::Text(server_url(self@.manager.config))),
                ("connectionToken"@, token_document(self@.manager.config.connection_token)),
            ];
            assert(service@->Object_0 =~= inner);
            assert(doc@->Object_0 =~= status_snapshot(self@.manager, info@)->Object_0);
        }
        Ok(doc)
    }

    /// Gives up the server process for termination, as the manager does.
    pub fn stop(&mut self) -> (held: Result<u32, ServerError>)
        ensures
            final(self)@ == (FacadeView {
                manager: ManagerView { process: None, ..old(self)@.manager },
                ..old(self)@
            }),
            match held {
                Ok(pid) => old(self)@.manager.process == Some(pid),
                Err(e) => old(self)@.manager.process is None && e@ == ServerErrorView::NotRunning,
            },
    {
        self.manager.stop()
    }

    /// Restarts the server, one step at a time: given what the caller
    /// reported, says what to do next or how the restart ended. The steps
    /// are not one act: after a failed stop the process may or may not be
    /// let go of.
    pub fn restart(&self, event: RestartEvent) -> (step: RestartStep)
        ensures
            step@ == restart_step(event@),
    {
        match event {
            RestartEvent::Begin => RestartStep::Stop,
            RestartEvent::Stopped(Err(e)) => RestartStep::Done(Err(e)),
            RestartEvent::Stopped(Ok(_)) => RestartStep::Pause { millis: RESTART_DELAY_MS },
            RestartEvent::Paused => RestartStep::Start,
            RestartEvent::Started(outcome) => RestartStep::Done(outcome),
        }
    }
}

} // verus!
