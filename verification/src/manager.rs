//! The lifecycle of one managed server: installed, started, probed, stopped.

use vstd::prelude::*;

use crate::config::{
    default_dir, info_outcome, ServerConfig, ServerConfigView, ServerInfo, ServerInfoView,
};
use crate::error::{unit_outcome, ServerError, ServerErrorView};
use crate::platform::Platform;
use crate::text::{concat2, decimal, decimal_text, join_path, joined};

verus! {

/// The time that a freshly spawned server is given before a start reports
/// success, in milliseconds. It is a pause, not a probe of the port.
pub const STARTUP_DELAY_MS: u64 = 2000;

/// Manages at most one server process: its configuration, the release that
/// was resolved last, the directory in which that release is installed, and
/// the process that runs it.
pub struct VscodeServerManager {
    config: ServerConfig,
    info: Option<ServerInfo>,
    process: Option<u32>,
    server_path: Option<String>,
}

/// The state of a manager with its texts as character sequences.
pub struct ManagerView {
    /// The configuration that the manager was made with.
    pub config: ServerConfigView,
    /// The release that was resolved last, if any.
    pub info: Option<ServerInfoView>,
    /// The identifier of the server process that is held, if any.
    pub process: Option<u32>,
    /// The directory in which the server is installed, once known.
    pub server_path: Option<Seq<char>>,
}

impl View for VscodeServerManager {
    type V = ManagerView;

    closed spec fn view(&self) -> ManagerView {
        ManagerView {
            config: self.config@,
            info: match self.info {
                Some(info) => Some(info@),
                None => None,
            },
            process: self.process,
            server_path: self.server_path.deep_view(),
        }
    }
}

/// What the probe of a held server process found.
#[derive(Debug, Clone, Copy, PartialEq, Eq, Structural)]
pub enum ProcessStatus {
    /// The process has not exited.
    Running,
    /// The process has exited.
    Exited,
    /// The probe itself failed.
    Unknown,
}

/// The program and arguments with which the server is spawned.
#[derive(Debug, PartialEq, Eq)]
pub struct LaunchCommand {
    /// The path of the server's launcher.
    pub program: String,
    /// The arguments, in order.
    pub args: Vec<String>,
}

/// A launch command with its texts as character sequences.
pub struct LaunchCommandView {
    pub program: Seq<char>,
    pub args: Seq<Seq<char>>,
}

impl View for LaunchCommand {
    type V = LaunchCommandView;

    open spec fn view(&self) -> LaunchCommandView {
        LaunchCommandView { program: self.program@, args: self.args.deep_view() }
    }
}

/// The address at which a server with this configuration is reached.
pub open spec fn server_url(config: ServerConfigView) -> Seq<char> {
    "http://"@ + config.host + ":"@ + decimal(config.port as nat)
}

/// The arguments that say how clients are admitted: with the configured
/// token, or expressly without one.
pub open spec fn token_args(token: Option<Seq<char>>) -> Seq<Seq<char>> {
    match token {
        Some(t) => seq!["--connection-token"@, t],
        None => seq!["--without-connection-token"@],
    }
}

/// The arguments that switch telemetry off, where that is configured.
pub open spec fn telemetry_args(disable: bool) -> Seq<Seq<char>> {
    if disable {
        seq!["--disable-telemetry"@]
    } else {
        seq![]
    }
}

/// The arguments with which a server of this configuration is spawned: port
/// and host, the telemetry switch, the token or its express absence, and
/// last the configured further arguments in their order.
pub open spec fn launch_args(config: ServerConfigView) -> Seq<Seq<char>> {
    seq!["--port"@, decimal(config.port as nat), "--host"@, config.host] + telemetry_args(
        config.disable_telemetry,
    ) + token_args(config.connection_token) + config.args
}

/// The path of the launcher of a server for `platform` that is installed in
/// `server_path`.
pub open spec fn launcher_path(server_path: Seq<char>, platform: Platform) -> Seq<char> {
    joined(joined(server_path, "bin"@), platform.launcher())
}

/// Builds the path of the launcher of a server for `platform` that is
/// installed in `server_path`.
pub fn executable_path(server_path: &str, platform: Platform) -> (path: String)
    ensures
        path@ == launcher_path(server_path@, platform),
{
    let bin = join_path(server_path, "bin");
    join_path(bin.as_str(), platform.executable_name())
}

/// Builds the arguments with which a server of this configuration is
/// spawned.
pub fn build_launch_args(config: &ServerConfig) -> (args: Vec<String>)
    ensures
        args.deep_view() == launch_args(config@),
{
    let mut args: Vec<String> = Vec::new();
    args.push(String::from_str("--port"));
    args.push(decimal_text(config.port as u64));
    args.push(String::from_str("--host"));
    args.push(config.host.clone());
    assert(args.deep_view() =~= seq![
        "--port"@,
        decimal(config.port as nat),
        "--host"@,
        config.host@,
    ]);
    if config.disable_telemetry {
        args.push(String::from_str("--disable-telemetry"));
    }
    let ghost head = seq!["--port"@, decimal(config.port as nat), "--host"@, config.host@]
        + telemetry_args(config.disable_telemetry);
    assert(args.deep_view() =~= head);
    match &config.connection_token {
        Some(token) => {
            args.push(String::from_str("--connection-token"));
            args.push(token.clone());
        },
        None => {
            args.push(String::from_str("--without-connection-token"));
        },
    }
    let ghost fixed = head + token_args(config.connection_token.deep_view());
    assert(args.deep_view() =~= fixed);
    let mut i: usize = 0;
    while i < config.args.len()
        invariant
            i <= config.args.len(),
            args.deep_view() =~= fixed + config.args.deep_view().subrange(0, i as int),
        decreases config.args.len() - i,
    {
        let ghost before = args.deep_view();
        args.push(config.args[i].clone());
        proof {
            let extra = config.args.deep_view();
            assert(args.deep_view() =~= before.push(extra[i as int]));
            assert(extra.subrange(0, i as int + 1) =~= extra.subrange(0, i as int).push(
                extra[i as int],
            ));
        }
        i = i + 1;
    }
    assert(config.args.deep_view().subrange(0, i as int) =~= config.args.deep_view());
    args
}

/// What the caller reports back while a server is made sure of.
#[derive(Debug, PartialEq, Eq)]
pub enum EnsureEvent {
    /// Nothing yet: the operation begins.
    Begin,
    /// How the resolution of the release ended.
    Detected(Result<ServerInfo, ServerError>),
    /// Whether the directory of the resolved release exists.
    Probed { installed: bool },
    /// How the download of the resolved release ended.
    Downloaded(Result<(), ServerError>),
}

/// What is to happen next while a server is made sure of.
#[derive(Debug, PartialEq, Eq)]
pub enum EnsureStep {
    /// Resolve the release to install.
    Detect,
    /// Find out whether this directory exists.
    Probe(String),
    /// Fetch and install the release `info` below `target_dir`.
    Download { info: ServerInfo, target_dir: String },
    /// The operation has ended, with this outcome.
    Done(Result<(), ServerError>),
}

/// An event of making sure of a server, with its texts as character
/// sequences.
pub enum EnsureEventView {
    Begin,
    Detected(Result<ServerInfoView, ServerErrorView>),
    Probed { installed: bool },
    Downloaded(Result<(), ServerErrorView>),
}

/// A step of making sure of a server, with its texts as character
/// sequences.
pub enum EnsureStepView {
    Detect,
    Probe(Seq<char>),
    Download { info: ServerInfoView, target_dir: Seq<char> },
    Done(Result<(), ServerErrorView>),
}

impl View for EnsureEvent {
    type V = EnsureEventView;

    open spec fn view(&self) -> EnsureEventView {
        match self {
            EnsureEvent::Begin => EnsureEventView::Begin,
            EnsureEvent::Detected(outcome) => EnsureEventView::Detected(info_outcome(*outcome)),
            EnsureEvent::Probed { installed } => EnsureEventView::Probed { installed: *installed },
            EnsureEvent::Downloaded(outcome) => EnsureEventView::Downloaded(unit_outcome(*outcome)),
        }
    }
}

impl View for EnsureStep {
    type V = EnsureStepView;

    open spec fn view(&self) -> EnsureStepView {
        match self {
            EnsureStep::Detect => EnsureStepView::Detect,
            EnsureStep::Probe(path) => EnsureStepView::Probe(path@),
            EnsureStep::Download { info, target_dir } => EnsureStepView::Download {
                info: info@,
                target_dir: target_dir@,
            },
            EnsureStep::Done(outcome) => EnsureStepView::Done(unit_outcome(*outcome)),
        }
    }
}

/// What the caller reports back while a server is started.
#[derive(Debug, PartialEq, Eq)]
pub enum StartEvent {
    /// Nothing yet: the start begins.
    Begin,
    /// Whether the launcher is present at the path that was asked about.
    Probed { present: bool },
    /// The server was spawned, as the process with this identifier.
    Spawned { pid: u32 },
    /// The server could not be spawned; the text is the system's report.
    SpawnFailed(String),
    /// The pause after the spawn is over.
    Settled,
}

/// What is to happen next while a server is started.
#[derive(Debug, PartialEq, Eq)]
pub enum StartStep {
    /// Find out whether a file exists at this path.
    ProbeExecutable(String),
    /// Spawn the server with this command.
    Spawn(LaunchCommand),
    /// Pause for this many milliseconds.
    Settle { millis: u64 },
    /// The start has ended, with this outcome.
    Done(Result<(), ServerError>),
}

/// An event of a start with its texts as character sequences.
pub enum StartEventView {
    Begin,
    Probed { present: bool },
    Spawned { pid: u32 },
    SpawnFailed(Seq<char>),
    Settled,
}

/// A step of a start with its texts as character sequences.
pub enum StartStepView {
    ProbeExecutable(Seq<char>),
    Spawn(LaunchCommandView),
    Settle { millis: u64 },
    Done(Result<(), ServerErrorView>),
}

impl View for StartEvent {
    type V = StartEventView;

    open spec fn view(&self) -> StartEventView {
        match self {
            StartEvent::Begin => StartEventView::Begin,
            StartEvent::Probed { present } => StartEventView::Probed { present: *present },
            StartEvent::Spawned { pid } => StartEventView::Spawned { pid: *pid },
            StartEvent::SpawnFailed(report) => StartEventView::SpawnFailed(report@),
            StartEvent::Settled => StartEventView::Settled,
        }
    }
}

impl View for StartStep {
    type V = StartStepView;

    open spec fn view(&self) -> StartStepView {
        match self {
            StartStep::ProbeExecutable(path) => StartStepView::ProbeExecutable(path@),
            StartStep::Spawn(command) => StartStepView::Spawn(command@),
            StartStep::Settle { millis } => StartStepView::Settle { millis: *millis },
            StartStep::Done(outcome) => StartStepView::Done(unit_outcome(*outcome)),
        }
    }
}

impl ManagerView {
    /// The state of a manager that was just made with `config`: no release
    /// resolved, nothing installed, no process held.
    pub open spec fn fresh(config: ServerConfigView) -> ManagerView {
        ManagerView { config, info: None, process: None, server_path: None }
    }

    /// Whether a release is resolved wherever an installed server is known.
    pub open spec fn knows_its_release(self) -> bool {
        self.server_path is Some ==> self.info is Some
    }

    /// The directory in which the resolved release is installed, or is to
    /// be: the one below the install directory that its commit names.
    pub open spec fn install_path(self) -> Option<Seq<char>> {
        match self.info {
            Some(info) => Some(joined(self.config.server_dir, info.vscode_commit)),
            None => None,
        }
    }

    /// The path at which the launcher of the installed server is expected.
    pub open spec fn launcher(self) -> Option<Seq<char>> {
        match (self.server_path, self.info) {
            (Some(path), Some(info)) => Some(launcher_path(path, info.platform)),
            _ => None,
        }
    }

    /// The state and the step that follow an event of making sure of a
    /// server.
    ///
    /// The release is resolved anew each time. Once it is resolved it is
    /// remembered, and its directory is looked for: if it is there, nothing
    /// is fetched. Else the release is downloaded. The directory counts as
    /// the installed server only once it was found or the download has
    /// succeeded. Failures pass through as they are.
    pub open spec fn ensure(self, event: EnsureEventView) -> (ManagerView, EnsureStepView) {
        match event {
            EnsureEventView::Begin => (self, EnsureStepView::Detect),
            EnsureEventView::Detected(Err(e)) => (self, EnsureStepView::Done(Err(e))),
            EnsureEventView::Detected(Ok(info)) => (
                ManagerView { info: Some(info), ..self },
                EnsureStepView::Probe(joined(self.config.server_dir, info.vscode_commit)),
            ),
            EnsureEventView::Probed { installed } => match self.info {
                None => (self, EnsureStepView::Done(Err(ServerErrorView::ServerNotFound))),
                Some(info) => if installed {
                    (
                        ManagerView { server_path: self.install_path(), ..self },
                        EnsureStepView::Done(Ok(())),
                    )
                } else {
                    (self, EnsureStepView::Download { info, target_dir: self.config.server_dir })
                },
            },
            EnsureEventView::Downloaded(Err(e)) => (self, EnsureStepView::Done(Err(e))),
            EnsureEventView::Downloaded(Ok(_)) => match self.info {
                None => (self, EnsureStepView::Done(Err(ServerErrorView::ServerNotFound))),
                Some(_) => (
                    ManagerView { server_path: self.install_path(), ..self },
                    EnsureStepView::Done(Ok(())),
                ),
            },
        }
    }

    /// Why a start cannot go ahead, where it cannot: a process is held
    /// already, or no installed server is known.
    pub open spec fn start_refusal(self) -> Option<ServerErrorView> {
        if self.process is Some {
            Some(ServerErrorView::AlreadyRunning)
        } else if self.launcher() is None {
            Some(ServerErrorView::ServerNotFound)
        } else {
            None
        }
    }

    /// The command that spawns the installed server.
    pub open spec fn launch(self) -> LaunchCommandView {
        LaunchCommandView { program: self.launcher()->0, args: launch_args(self.config) }
    }

    /// The state and the step that follow an event of a start.
    ///
    /// While a process is held, a start is refused because the server runs
    /// already: nothing is probed, nothing is spawned, and a process that
    /// is reported as spawned is not taken. Without an installed server, or
    /// without its launcher, there is nothing to start. Else the launcher
    /// is probed, then spawned with the arguments of the configuration; the
    /// spawned process is held from then on, and the start ends with
    /// success after a pause.
    pub open spec fn start(self, event: StartEventView) -> (ManagerView, StartStepView) {
        match event {
            StartEventView::Begin => (
                self,
                match self.start_refusal() {
                    Some(e) => StartStepView::Done(Err(e)),
                    None => StartStepView::ProbeExecutable(self.launcher()->0),
                },
            ),
            StartEventView::Probed { present } => (
                self,
                match self.start_refusal() {
                    Some(e) => StartStepView::Done(Err(e)),
                    None => if present {
                        StartStepView::Spawn(self.launch())
                    } else {
                        StartStepView::Done(Err(ServerErrorView::ServerNotFound))
                    },
                },
            ),
            StartEventView::Spawned { pid } => if self.process is Some {
                (self, StartStepView::Done(Err(ServerErrorView::AlreadyRunning)))
            } else {
                (
                    ManagerView { process: Some(pid), ..self },
                    StartStepView::Settle { millis: STARTUP_DELAY_MS },
                )
            },
            StartEventView::SpawnFailed(report) => (
                self,
                StartStepView::Done(Err(ServerErrorView::StartFailed(report))),
            ),
            StartEventView::Settled => (self, StartStepView::Done(Ok(()))),
        }
    }
}

/// While a process is held, a start changes nothing and asks for nothing:
/// it neither probes nor spawns, so no second process comes to be. A start
/// that begins in that state ends at once, refused because the server runs
/// already.
pub proof fn lemma_start_refused_while_running(manager: ManagerView, event: StartEventView)
    requires
        manager.process is Some,
    ensures
        manager.start(event).0 == manager,
        manager.start(event).1 is Done,
        event is Begin || event is Probed || event is Spawned ==> manager.start(event).1
            == StartStepView::Done(Err(ServerErrorView::AlreadyRunning)),
{
}

/// A start takes a process only when none is held, and only the one that
/// was reported as spawned: whatever the event, the manager holds at most
/// the process it held before or that one.
pub proof fn lemma_start_holds_one_process(manager: ManagerView, event: StartEventView)
    ensures
        manager.start(event).0.process == manager.process || (manager.process is None
            && event is Spawned && manager.start(event).0.process == Some(event->pid)),
        manager.start(event).0.config == manager.config,
        manager.start(event).0.info == manager.info,
        manager.start(event).0.server_path == manager.server_path,
{
}

/// Making sure of a server always begins with a resolution of the release,
/// and a release whose directory is found is not fetched: the operation
/// ends with success, and that directory is the installed server. A
/// download is asked for only after a probe that found no directory.
pub proof fn lemma_installed_release_is_not_fetched(manager: ManagerView, event: EnsureEventView)
    ensures
        manager.ensure(EnsureEventView::Begin) == (manager, EnsureStepView::Detect),
        manager.info is Some ==> manager.ensure(EnsureEventView::Probed { installed: true }) == (
            ManagerView { server_path: manager.install_path(), ..manager },
            EnsureStepView::Done(Ok(())),
        ),
        manager.ensure(event).1 is Download ==> event == (EnsureEventView::Probed {
            installed: false,
        }),
{
}

/// Making sure of a server never touches the held process or the
/// configuration, and the installed directory, once it changes, is the one
/// that the remembered release names.
pub proof fn lemma_ensure_keeps_process(manager: ManagerView, event: EnsureEventView)
    ensures
        manager.ensure(event).0.process == manager.process,
        manager.ensure(event).0.config == manager.config,
        manager.ensure(event).0.server_path == manager.server_path || (manager.ensure(
            event,
        ).0.server_path is Some && manager.ensure(event).0.server_path == manager.ensure(
            event,
        ).0.install_path()),
{
}

/// A manager knows an installed server only for a release that it has
/// resolved: a fresh manager knows neither, and no step of making sure of a
/// server or of a start gives it the one without the other.
pub proof fn lemma_install_needs_release(
    config: ServerConfigView,
    manager: ManagerView,
    ensure: EnsureEventView,
    start: StartEventView,
)
    ensures
        ManagerView::fresh(config).knows_its_release(),
        manager.knows_its_release() ==> manager.ensure(ensure).0.knows_its_release(),
        manager.knows_its_release() ==> manager.start(start).0.knows_its_release(),
{
}

/// The arguments of a launch begin with port and host and end with the
/// configured further arguments. Between them, the admission of clients is
/// stated exactly once: by the token where one is configured, else by its
/// express absence, never by both.
pub proof fn lemma_launch_args_shape(config: ServerConfigView)
    ensures
        launch_args(config).subrange(0, 4) == seq![
            "--port"@,
            decimal(config.port as nat),
            "--host"@,
            config.host,
        ],
        launch_args(config).len() >= config.args.len(),
        launch_args(config).subrange(
            launch_args(config).len() - config.args.len(),
            launch_args(config).len() as int,
        ) == config.args,
        token_args(config.connection_token)[0] == "--connection-token"@
            <==> config.connection_token is Some,
        token_args(config.connection_token)[0] == "--without-connection-token"@
            <==> config.connection_token is None,
        config.connection_token is Some ==> token_args(config.connection_token)
            == seq!["--connection-token"@, config.connection_token->0],
{
    reveal_strlit("--connection-token");
    reveal_strlit("--without-connection-token");
    assert("--connection-token"@.len() != "--without-connection-token"@.len());
    let all = launch_args(config);
    assert(all.subrange(0, 4) =~= seq![
        "--port"@,
        decimal(config.port as nat),
        "--host"@,
        config.host,
    ]);
    assert(all.subrange(all.len() - config.args.len(), all.len() as int) =~= config.args);
}

impl VscodeServerManager {
    /// A manager with the default configuration, its install directory
    /// resolved from what the environment offers. This never fails.
    pub fn new(env_dir: Option<String>, cache_dir: Option<String>) -> (made: Result<
        Self,
        ServerError,
    >)
        ensures
            made is Ok,
            made->Ok_0@ == ManagerView::fresh(
                ServerConfigView::standard(default_dir(env_dir.deep_view(), cache_dir.deep_view())),
            ),
    {
        Self::with_config(ServerConfig::default_with(env_dir, cache_dir))
    }

    /// A manager with the configuration `config`. This never fails; a
    /// directory that cannot be used shows at the first use.
    pub fn with_config(config: ServerConfig) -> (made: Result<Self, ServerError>)
        ensures
            made is Ok,
            made->Ok_0@ == ManagerView::fresh(config@),
    {
        Ok(VscodeServerManager { config, info: None, process: None, server_path: None })
    }

    /// The address at which the server is reached once it runs. That it is
    /// listening there is not claimed.
    pub fn url(&self) -> (url: String)
        ensures
            url@ == server_url(self@.config),
    {
        let mut url = concat2("http://", self.config.host.as_str());
        url.append(":");
        url.append(decimal_text(self.config.port as u64).as_str());
        url
    }

    /// The release that was resolved last, if any.
    pub fn info(&self) -> (info: Option<&ServerInfo>)
        ensures
            match info {
                Some(i) => self@.info == Some(i@),
                None => self@.info is None,
            },
    {
        self.info.as_ref()
    }

    /// The configuration that the manager was made with.
    pub fn config(&self) -> (config: &ServerConfig)
        ensures
            config@ == self@.config,
    {
        &self.config
    }

    /// The identifier of the server process that is held, if any.
    pub fn process_id(&self) -> (pid: Option<u32>)
        ensures
            pid == self@.process,
    {
        self.process
    }

    /// The directory in which the server is installed, once known.
    pub fn server_path(&self) -> (path: Option<&String>)
        ensures
            path.deep_view() == self@.server_path,
    {
        self.server_path.as_ref()
    }

    /// The path of the launcher of a server installed in `server_path`, if
    /// the launcher is `present` there. Without a launcher, or without a
    /// resolved release to say which launcher it is, there is no server.
    pub fn get_executable_path(&self, server_path: &str, present: bool) -> (path: Result<
        String,
        ServerError,
    >)
        ensures
            match path {
                Ok(p) => present && self@.info is Some && p@ == launcher_path(
                    server_path@,
                    self@.info->0.platform,
                ),
                Err(e) => (!present || self@.info is None) && e@ == ServerErrorView::ServerNotFound,
            },
    {
        match &self.info {
            Some(info) => {
                if present {
                    Ok(executable_path(server_path, info.platform))
                } else {
                    Err(ServerError::ServerNotFound)
                }
            },
            None => Err(ServerError::ServerNotFound),
        }
    }

    /// Makes sure that the server is installed, one step at a time: given
    /// what the caller reported, says what to do next or how the operation
    /// ended. The caller begins with `Begin`, performs each step that is
    /// asked for and reports how it went.
    pub fn ensure_server(&mut self, event: EnsureEvent) -> (step: EnsureStep)
        ensures
            (final(self)@, step@) == old(self)@.ensure(event@),
    {
        match event {
            EnsureEvent::Begin => EnsureStep::Detect,
            EnsureEvent::Detected(Err(e)) => EnsureStep::Done(Err(e)),
            EnsureEvent::Detected(Ok(info)) => {
                let path = join_path(self.config.server_dir.as_str(), info.vscode_commit.as_str());
                self.info = Some(info);
                EnsureStep::Probe(path)
            },
            EnsureEvent::Probed { installed } => match &self.info {
                None => EnsureStep::Done(Err(ServerError::ServerNotFound)),
                Some(info) => {
                    if installed {
                        let path = join_path(
                            self.config.server_dir.as_str(),
                            info.vscode_commit.as_str(),
                        );
                        self.server_path = Some(path);
                        EnsureStep::Done(Ok(()))
                    } else {
                        EnsureStep::Download {
                            info: info.clone(),
                            target_dir: self.config.server_dir.clone(),
                        }
                    }
                },
            },
            EnsureEvent::Downloaded(Err(e)) => EnsureStep::Done(Err(e)),
            EnsureEvent::Downloaded(Ok(_)) => match &self.info {
                None => EnsureStep::Done(Err(ServerError::ServerNotFound)),
                Some(info) => {
                    let path = join_path(
                        self.config.server_dir.as_str(),
                        info.vscode_commit.as_str(),
                    );
                    self.server_path = Some(path);
                    EnsureStep::Done(Ok(()))
                },
            },
        }
    }

    /// Starts the server, one step at a time: given what the caller
    /// reported, says what to do next or how the start ended. The caller
    /// begins with `Begin`, performs each step that is asked for and
    /// reports how it went.
    pub fn start(&mut self, event: StartEvent) -> (step: StartStep)
        ensures
            (final(self)@, step@) == old(self)@.start(event@),
    {
        match event {
            StartEvent::Begin => match self.launcher(true) {
                Ok(launcher) => StartStep::ProbeExecutable(launcher),
                Err(e) => StartStep::Done(Err(e)),
            },
            StartEvent::Probed { present } => match self.launcher(present) {
                Ok(launcher) => StartStep::Spawn(
                    LaunchCommand { program: launcher, args: build_launch_args(&self.config) },
                ),
                Err(e) => StartStep::Done(Err(e)),
            },
            StartEvent::Spawned { pid } => {
                if self.process.is_some() {
                    StartStep::Done(Err(ServerError::AlreadyRunning))
                } else {
                    self.process = Some(pid);
                    StartStep::Settle { millis: STARTUP_DELAY_MS }
                }
            },
            StartEvent::SpawnFailed(report) => StartStep::Done(
                Err(ServerError::StartFailed(report)),
            ),
            StartEvent::Settled => StartStep::Done(Ok(())),
        }
    }

    /// The launcher with which a start goes ahead, or why it does not: a
    /// process is held already, no installed server is known, or its
    /// launcher is not `present`.
    fn launcher(&self, present: bool) -> (path: Result<String, ServerError>)
        ensures
            match path {
                Ok(p) => self@.start_refusal() is None && present && Some(p@) == self@.launcher(),
                Err(e) => match self@.start_refusal() {
                    Some(refusal) => e@ == refusal,
                    None => !present && e@ == ServerErrorView::ServerNotFound,
                },
            },
    {
        if self.process.is_some() {
            return Err(ServerError::AlreadyRunning);
        }
        match &self.server_path {
            Some(path) => self.get_executable_path(path.as_str(), present),
            None => Err(ServerError::ServerNotFound),
        }
    }

    /// Gives up the server process for termination. With a process held, it
    /// is handed out and the manager holds none from then on, however the
    /// termination goes. With none held, the stop is refused.
    pub fn stop(&mut self) -> (held: Result<u32, ServerError>)
        ensures
            final(self)@ == (ManagerView { process: None, ..old(self)@ }),
            match held {
                Ok(pid) => old(self)@.process == Some(pid),
                Err(e) => old(self)@.process is None && e@ == ServerErrorView::NotRunning,
            },
    {
        match self.process.take() {
            Some(pid) => Ok(pid),
            None => Err(ServerError::NotRunning),
        }
    }

    /// Says whether the server runs, from the probe of the held process.
    /// Only a process that was found running counts; one that has exited,
    /// or whose probe failed, is let go of, so that the manager corrects
    /// itself without a stop. With no process held the answer is no,
    /// whatever the probe says.
    pub fn is_running(&mut self, status: ProcessStatus) -> (running: bool)
        ensures
            running == (old(self)@.process is Some && status == ProcessStatus::Running),
            final(self)@ == (ManagerView {
                process: if running {
                    old(self)@.process
                } else {
                    None
                },
                ..old(self)@
            }),
    {
        if self.process.is_some() {
            match status {
                ProcessStatus::Running => true,
                _ => {
                    self.process = None;
                    false
                },
            }
        } else {
            false
        }
    }

    /// Gives up the held process, if any, for a termination that nobody
    /// waits for: the last act of a manager.
    pub fn release(&mut self) -> (held: Option<u32>)
        ensures
            held == old(self)@.process,
            final(self)@ == (ManagerView { process: None, ..old(self)@ }),
    {
        self.process.take()
    }
}

} // verus!
