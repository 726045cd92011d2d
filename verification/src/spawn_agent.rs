//! Forking a child agent off a parent thread and starting its first turn.
//!
//! A child belongs to the active runtime of its parent. A parent that is not
//! loaded makes the request invalid; nothing is forked off anything else in its
//! place. What the server hands over only to have it handed on is carried along
//! unread: the rest `C` of a configuration, the environments `E` of a thread, and
//! the trace `T` of a request.
use crate::error;
use crate::error::{JSONRPCErrorError, JSONRPCErrorErrorView};
use crate::history::{UserInput, UserInputView};
use crate::protocol::{
    CodexSpawnAgentParams, CodexSpawnAgentParamsView, CodexSpawnAgentResponse,
    CodexSpawnAgentResponseView, ConnectionId, ConnectionRequestId, ConnectionRequestIdView,
};
use crate::text;
use vstd::prelude::*;

verus! {

/// Where a thread comes from.
#[derive(Clone, Debug, PartialEq, Eq)]
pub enum SessionSource {
    /// It is a sub-agent.
    SubAgent(SubAgentSource),
    /// It was started by anything else.
    Other,
}

/// Where a sub-agent comes from.
#[derive(Clone, Debug, PartialEq, Eq)]
pub enum SubAgentSource {
    /// It was forked off a parent thread.
    ThreadSpawn {
        parent_thread_id: String,
        /// How many forks lie between it and a thread that is no fork.
        depth: i32,
        agent_path: Option<String>,
        agent_nickname: Option<String>,
        agent_role: Option<String>,
    },
    /// It was started in any other way.
    Other,
}

/// The mathematical model of [`SessionSource`].
pub enum SessionSourceView {
    SubAgent(SubAgentSourceView),
    Other,
}

/// The mathematical model of [`SubAgentSource`].
pub enum SubAgentSourceView {
    ThreadSpawn {
        parent_thread_id: Seq<char>,
        depth: i32,
        agent_path: Option<Seq<char>>,
        agent_nickname: Option<Seq<char>>,
        agent_role: Option<Seq<char>>,
    },
    Other,
}

impl View for SubAgentSource {
    type V = SubAgentSourceView;

    open spec fn view(&self) -> SubAgentSourceView {
        match self {
            SubAgentSource::ThreadSpawn {
                parent_thread_id,
                depth,
                agent_path,
                agent_nickname,
                agent_role,
            } => SubAgentSourceView::ThreadSpawn {
                parent_thread_id: parent_thread_id@,
                depth: *depth,
                agent_path: agent_path.deep_view(),
                agent_nickname: agent_nickname.deep_view(),
                agent_role: agent_role.deep_view(),
            },
            SubAgentSource::Other => SubAgentSourceView::Other,
        }
    }
}

impl View for SessionSource {
    type V = SessionSourceView;

    open spec fn view(&self) -> SessionSourceView {
        match self {
            SessionSource::SubAgent(source) => SessionSourceView::SubAgent(source@),
            SessionSource::Other => SessionSourceView::Other,
        }
    }
}

/// The depth of a child: one more than that of a parent which was itself forked
/// off a thread, as far as the type goes, and one below any other parent.
pub open spec fn depth_below(parent: SessionSourceView) -> i32 {
    match parent {
        SessionSourceView::SubAgent(SubAgentSourceView::ThreadSpawn { depth, .. }) => if depth
            == i32::MAX {
            i32::MAX
        } else {
            (depth + 1) as i32
        },
        _ => 1,
    }
}

/// The depth of a child of a thread with the given source.
pub fn child_depth(parent: &SessionSource) -> (depth: i32)
    ensures
        depth == depth_below(parent@),
{
    match parent {
        SessionSource::SubAgent(SubAgentSource::ThreadSpawn { depth, .. }) => if *depth
            == i32::MAX {
            i32::MAX
        } else {
            *depth + 1
        },
        _ => 1,
    }
}

/// The configuration of a thread.
#[derive(Clone, Debug, PartialEq, Eq)]
pub struct ThreadConfig<C> {
    pub model: Option<String>,
    /// Location of the working directory.
    pub cwd: String,
    /// Locations of the roots of the workspace.
    pub workspace_roots: Vec<String>,
    /// Everything else; carried along unread.
    pub rest: C,
}

/// The mathematical model of [`ThreadConfig`].
pub struct ThreadConfigView<C> {
    pub model: Option<Seq<char>>,
    pub cwd: Seq<char>,
    pub workspace_roots: Seq<Seq<char>>,
    pub rest: C,
}

impl<C> View for ThreadConfig<C> {
    type V = ThreadConfigView<C>;

    open spec fn view(&self) -> ThreadConfigView<C> {
        ThreadConfigView {
            model: self.model.deep_view(),
            cwd: self.cwd@,
            workspace_roots: text::texts(self.workspace_roots@),
            rest: self.rest,
        }
    }
}

/// What a new thread starts from.
#[derive(Clone, Copy, Debug, PartialEq, Eq)]
pub enum InitialHistory {
    /// An empty history.
    New,
}

/// On whose behalf a thread is started.
#[derive(Clone, Copy, Debug, PartialEq, Eq)]
pub enum ThreadSource {
    Subagent,
}

/// What the extensions of a thread are given at its start.
#[derive(Clone, Copy, Debug, PartialEq, Eq)]
pub enum ThreadExtensionInit {
    /// What they are given by default.
    Usual,
}

/// How a child thread is to be started.
#[derive(Clone, Debug, PartialEq, Eq)]
pub struct StartThreadOptions<C, E, T> {
    pub config: ThreadConfig<C>,
    /// Whether another model of the provider may stand in.
    pub allow_provider_model_fallback: bool,
    pub initial_history: InitialHistory,
    /// Name of the history mode, if not the usual one.
    pub history_mode: Option<String>,
    pub session_source: Option<SessionSource>,
    pub thread_source: Option<ThreadSource>,
    /// Names of tools beyond those of the configuration.
    pub dynamic_tools: Vec<String>,
    pub metrics_service_name: Option<String>,
    /// The trace that the thread is part of.
    pub parent_trace: Option<T>,
    pub environments: E,
    pub thread_extension_init: ThreadExtensionInit,
    pub supports_openai_form_elicitation: bool,
}

/// The mathematical model of [`StartThreadOptions`].
pub struct StartThreadOptionsView<C, E, T> {
    pub config: ThreadConfigView<C>,
    pub allow_provider_model_fallback: bool,
    pub initial_history: InitialHistory,
    pub history_mode: Option<Seq<char>>,
    pub session_source: Option<SessionSourceView>,
    pub thread_source: Option<ThreadSource>,
    pub dynamic_tools: Seq<Seq<char>>,
    pub metrics_service_name: Option<Seq<char>>,
    pub parent_trace: Option<T>,
    pub environments: E,
    pub thread_extension_init: ThreadExtensionInit,
    pub supports_openai_form_elicitation: bool,
}

impl<C, E, T> View for StartThreadOptions<C, E, T> {
    type V = StartThreadOptionsView<C, E, T>;

    open spec fn view(&self) -> StartThreadOptionsView<C, E, T> {
        StartThreadOptionsView {
            config: self.config@,
            allow_provider_model_fallback: self.allow_provider_model_fallback,
            initial_history: self.initial_history,
            history_mode: self.history_mode.deep_view(),
            session_source: match self.session_source {
                Some(source) => Some(source@),
                None => None,
            },
            thread_source: self.thread_source,
            dynamic_tools: text::texts(self.dynamic_tools@),
            metrics_service_name: self.metrics_service_name.deep_view(),
            parent_trace: self.parent_trace,
            environments: self.environments,
            thread_extension_init: self.thread_extension_init,
            supports_openai_form_elicitation: self.supports_openai_form_elicitation,
        }
    }
}

/// The settings with which a turn is run.
#[derive(Clone, Copy, Debug, PartialEq, Eq)]
pub enum TurnSettings {
    /// Every setting at its default.
    Defaults,
}

/// A turn to be started.
#[derive(Clone, Debug, PartialEq, Eq)]
pub struct TurnStartParams {
    pub thread_id: String,
    pub input: Vec<UserInput>,
    pub settings: TurnSettings,
}

/// The mathematical model of [`TurnStartParams`].
pub struct TurnStartParamsView {
    pub thread_id: Seq<char>,
    pub input: Seq<UserInputView>,
    pub settings: TurnSettings,
}

impl View for TurnStartParams {
    type V = TurnStartParamsView;

    open spec fn view(&self) -> TurnStartParamsView {
        TurnStartParamsView {
            thread_id: self.thread_id@,
            input: self.input@.map_values(|input: UserInput| input@),
            settings: self.settings,
        }
    }
}

/// Why a child thread could not be forked.
#[derive(Clone, Debug, PartialEq, Eq)]
pub enum SpawnFailure {
    /// The request is invalid, for the given reason.
    InvalidRequest(String),
    /// Anything else, in words.
    Other(String),
}

/// The mathematical model of [`SpawnFailure`].
pub enum SpawnFailureView {
    InvalidRequest(Seq<char>),
    Other(Seq<char>),
}

impl View for SpawnFailure {
    type V = SpawnFailureView;

    open spec fn view(&self) -> SpawnFailureView {
        match self {
            SpawnFailure::InvalidRequest(reason) => SpawnFailureView::InvalidRequest(reason@),
            SpawnFailure::Other(reason) => SpawnFailureView::Other(reason@),
        }
    }
}

/// What the server knows of the client that made the request.
#[derive(Clone, Debug, PartialEq, Eq)]
pub struct Client {
    pub name: Option<String>,
    pub version: Option<String>,
    pub supports_openai_form_elicitation: bool,
}

/// The mathematical model of [`Client`].
pub struct ClientView {
    pub name: Option<Seq<char>>,
    pub version: Option<Seq<char>>,
    pub supports_openai_form_elicitation: bool,
}

impl View for Client {
    type V = ClientView;

    open spec fn view(&self) -> ClientView {
        ClientView {
            name: self.name.deep_view(),
            version: self.version.deep_view(),
            supports_openai_form_elicitation: self.supports_openai_form_elicitation,
        }
    }
}

/// Something that the server reports while it serves the request.
#[derive(Debug, PartialEq, Eq)]
pub enum SpawnAgentEvent<C, E, T> {
    /// The parent's id was parsed: it, or why it is none.
    ThreadIdParsed(Result<String, String>),
    /// The parent was looked up among the loaded threads.
    ThreadLookedUp { found: bool },
    /// A copy of the parent's configuration was taken, and its source was read.
    ParentRead { config: ThreadConfig<C>, session_source: SessionSource },
    /// The environments of the child were selected.
    EnvironmentsSelected(E),
    /// The trace of the request was looked up, if it has one.
    TraceRead(Option<T>),
    /// The child was forked: its id, or why it could not be.
    ChildForked(Result<String, SpawnFailure>),
    /// The connection was subscribed to the child, as far as that was possible.
    ListenerAttached,
    /// The child's first turn was started, or why it could not be.
    TurnStarted(Result<(), JSONRPCErrorError>),
}

/// The mathematical model of [`SpawnAgentEvent`].
pub enum SpawnAgentEventView<C, E, T> {
    ThreadIdParsed(Result<Seq<char>, Seq<char>>),
    ThreadLookedUp { found: bool },
    ParentRead { config: ThreadConfigView<C>, session_source: SessionSourceView },
    EnvironmentsSelected(E),
    TraceRead(Option<T>),
    ChildForked(Result<Seq<char>, SpawnFailureView>),
    ListenerAttached,
    TurnStarted(Result<(), JSONRPCErrorErrorView>),
}

impl<C, E, T> View for SpawnAgentEvent<C, E, T> {
    type V = SpawnAgentEventView<C, E, T>;

    open spec fn view(&self) -> SpawnAgentEventView<C, E, T> {
        match self {
            SpawnAgentEvent::ThreadIdParsed(Ok(id)) => SpawnAgentEventView::ThreadIdParsed(Ok(id@)),
            SpawnAgentEvent::ThreadIdParsed(Err(reason)) => SpawnAgentEventView::ThreadIdParsed(
                Err(reason@),
            ),
            SpawnAgentEvent::ThreadLookedUp { found } => SpawnAgentEventView::ThreadLookedUp {
                found: *found,
            },
            SpawnAgentEvent::ParentRead { config, session_source } => {
                SpawnAgentEventView::ParentRead {
                    config: config@,
                    session_source: session_source@,
                }
            },
            SpawnAgentEvent::EnvironmentsSelected(environments) => {
                SpawnAgentEventView::EnvironmentsSelected(*environments)
            },
            SpawnAgentEvent::TraceRead(trace) => SpawnAgentEventView::TraceRead(*trace),
            SpawnAgentEvent::ChildForked(Ok(id)) => SpawnAgentEventView::ChildForked(Ok(id@)),
            SpawnAgentEvent::ChildForked(Err(failure)) => SpawnAgentEventView::ChildForked(
                Err(failure@),
            ),
            SpawnAgentEvent::ListenerAttached => SpawnAgentEventView::ListenerAttached,
            SpawnAgentEvent::TurnStarted(Ok(_)) => SpawnAgentEventView::TurnStarted(Ok(())),
            SpawnAgentEvent::TurnStarted(Err(failure)) => SpawnAgentEventView::TurnStarted(
                Err(failure@),
            ),
        }
    }
}

/// Something that the server has to do for the request.
#[derive(Debug, PartialEq, Eq)]
pub enum SpawnAgentAction<C, E, T> {
    /// Parse a thread id.
    ParseThreadId { id: String },
    /// Look up a thread among the loaded ones.
    FindThread { thread_id: String },
    /// Take a copy of the configuration of the thread that was found, and read
    /// its source.
    ReadParent { thread_id: String },
    /// Select the default environments for a working directory and the roots
    /// of a workspace.
    SelectEnvironments { cwd: String, workspace_roots: Vec<String> },
    /// Look up the trace of a request.
    ReadTrace { request_id: ConnectionRequestId },
    /// Fork a child off a thread.
    ForkChild { parent_thread_id: String, options: StartThreadOptions<C, E, T> },
    /// Subscribe connections to a thread.
    AttachListener { thread_id: String, connections: Vec<ConnectionId> },
    /// Start a turn under a request, on behalf of a client.
    StartTurn { request_id: ConnectionRequestId, params: TurnStartParams, client: Client },
    /// Answer the request.
    Finish(Result<CodexSpawnAgentResponse, JSONRPCErrorError>),
    /// Nothing: the event was not one that the request waits for.
    Nothing,
}

/// The mathematical model of [`SpawnAgentAction`].
pub enum SpawnAgentActionView<C, E, T> {
    ParseThreadId { id: Seq<char> },
    FindThread { thread_id: Seq<char> },
    ReadParent { thread_id: Seq<char> },
    SelectEnvironments { cwd: Seq<char>, workspace_roots: Seq<Seq<char>> },
    ReadTrace { request_id: ConnectionRequestIdView },
    ForkChild { parent_thread_id: Seq<char>, options: StartThreadOptionsView<C, E, T> },
    AttachListener { thread_id: Seq<char>, connections: Seq<ConnectionId> },
    StartTurn {
        request_id: ConnectionRequestIdView,
        params: TurnStartParamsView,
        client: ClientView,
    },
    Finish(Result<CodexSpawnAgentResponseView, JSONRPCErrorErrorView>),
    Nothing,
}

impl<C, E, T> View for SpawnAgentAction<C, E, T> {
    type V = SpawnAgentActionView<C, E, T>;

    open spec fn view(&self) -> SpawnAgentActionView<C, E, T> {
        match self {
            SpawnAgentAction::ParseThreadId { id } => SpawnAgentActionView::ParseThreadId {
                id: id@,
            },
            SpawnAgentAction::FindThread { thread_id } => SpawnAgentActionView::FindThread {
                thread_id: thread_id@,
            },
            SpawnAgentAction::ReadParent { thread_id } => SpawnAgentActionView::ReadParent {
                thread_id: thread_id@,
            },
            SpawnAgentAction::SelectEnvironments { cwd, workspace_roots } => {
                SpawnAgentActionView::SelectEnvironments {
                    cwd: cwd@,
                    workspace_roots: text::texts(workspace_roots@),
                }
            },
            SpawnAgentAction::ReadTrace { request_id } => SpawnAgentActionView::ReadTrace {
                request_id: request_id@,
            },
            SpawnAgentAction::ForkChild { parent_thread_id, options } => {
                SpawnAgentActionView::ForkChild {
                    parent_thread_id: parent_thread_id@,
                    options: options@,
                }
            },
            SpawnAgentAction::AttachListener { thread_id, connections } => {
                SpawnAgentActionView::AttachListener {
                    thread_id: thread_id@,
                    connections: connections@,
                }
            },
            SpawnAgentAction::StartTurn { request_id, params, client } => {
                SpawnAgentActionView::StartTurn {
                    request_id: request_id@,
                    params: params@,
                    client: client@,
                }
            },
            SpawnAgentAction::Finish(Ok(response)) => SpawnAgentActionView::Finish(Ok(response@)),
            SpawnAgentAction::Finish(Err(failure)) => SpawnAgentActionView::Finish(Err(failure@)),
            SpawnAgentAction::Nothing => SpawnAgentActionView::Nothing,
        }
    }
}

/// Who asked for the child, and what it is to be given.
#[derive(Clone, Debug, PartialEq, Eq)]
pub struct SpawnJob {
    pub request_id: ConnectionRequestId,
    pub client: Client,
    pub prompt: String,
    pub agent_role: Option<String>,
    pub model: Option<String>,
}

/// The mathematical model of [`SpawnJob`].
pub struct SpawnJobView {
    pub request_id: ConnectionRequestIdView,
    pub client: ClientView,
    pub prompt: Seq<char>,
    pub agent_role: Option<Seq<char>>,
    pub model: Option<Seq<char>>,
}

impl View for SpawnJob {
    type V = SpawnJobView;

    open spec fn view(&self) -> SpawnJobView {
        SpawnJobView {
            request_id: self.request_id@,
            client: self.client@,
            prompt: self.prompt@,
            agent_role: self.agent_role.deep_view(),
            model: self.model.deep_view(),
        }
    }
}

/// A parent thread that was read.
#[derive(Clone, Debug, PartialEq, Eq)]
pub struct Parent<C> {
    pub thread_id: String,
    pub config: ThreadConfig<C>,
    pub session_source: SessionSource,
}

/// The mathematical model of [`Parent`].
pub struct ParentView<C> {
    pub thread_id: Seq<char>,
    pub config: ThreadConfigView<C>,
    pub session_source: SessionSourceView,
}

impl<C> View for Parent<C> {
    type V = ParentView<C>;

    open spec fn view(&self) -> ParentView<C> {
        ParentView {
            thread_id: self.thread_id@,
            config: self.config@,
            session_source: self.session_source@,
        }
    }
}

/// How far the request has come, and what it still needs to know.
#[derive(Clone, Debug, PartialEq, Eq)]
pub enum SpawnAgentState<C, E> {
    /// The parent's id is being parsed.
    ParsingThreadId { job: SpawnJob },
    /// The parent is being looked up.
    FindingParent { job: SpawnJob, parent_thread_id: String },
    /// The parent is being read.
    ReadingParent { job: SpawnJob, parent_thread_id: String },
    /// The environments of the child are being selected.
    SelectingEnvironments { job: SpawnJob, parent: Parent<C> },
    /// The trace of the request is being looked up.
    ReadingTrace { job: SpawnJob, parent: Parent<C>, environments: E },
    /// The child is being forked.
    ForkingChild { job: SpawnJob },
    /// The connection is being subscribed to the child.
    AttachingListener { job: SpawnJob, child_thread_id: String },
    /// The child's first turn is being started.
    StartingTurn { child_thread_id: String },
    /// The request has been answered.
    Finished,
}

/// The mathematical model of [`SpawnAgentState`].
pub enum SpawnAgentStateView<C, E> {
    ParsingThreadId { job: SpawnJobView },
    FindingParent { job: SpawnJobView, parent_thread_id: Seq<char> },
    ReadingParent { job: SpawnJobView, parent_thread_id: Seq<char> },
    SelectingEnvironments { job: SpawnJobView, parent: ParentView<C> },
    ReadingTrace { job: SpawnJobView, parent: ParentView<C>, environments: E },
    ForkingChild { job: SpawnJobView },
    AttachingListener { job: SpawnJobView, child_thread_id: Seq<char> },
    StartingTurn { child_thread_id: Seq<char> },
    Finished,
}

impl<C, E> View for SpawnAgentState<C, E> {
    type V = SpawnAgentStateView<C, E>;

    open spec fn view(&self) -> SpawnAgentStateView<C, E> {
        match self {
            SpawnAgentState::ParsingThreadId { job } => SpawnAgentStateView::ParsingThreadId {
                job: job@,
            },
            SpawnAgentState::FindingParent { job, parent_thread_id } => {
                SpawnAgentStateView::FindingParent {
                    job: job@,
                    parent_thread_id: parent_thread_id@,
                }
            },
            SpawnAgentState::ReadingParent { job, parent_thread_id } => {
                SpawnAgentStateView::ReadingParent {
                    job: job@,
                    parent_thread_id: parent_thread_id@,
                }
            },
            SpawnAgentState::SelectingEnvironments { job, parent } => {
                SpawnAgentStateView::SelectingEnvironments { job: job@, parent: parent@ }
            },
            SpawnAgentState::ReadingTrace { job, parent, environments } => {
                SpawnAgentStateView::ReadingTrace {
                    job: job@,
                    parent: parent@,
                    environments: *environments,
                }
            },
            SpawnAgentState::ForkingChild { job } => SpawnAgentStateView::ForkingChild {
                job: job@,
            },
            SpawnAgentState::AttachingListener { job, child_thread_id } => {
                SpawnAgentStateView::AttachingListener {
                    job: job@,
                    child_thread_id: child_thread_id@,
                }
            },
            SpawnAgentState::StartingTurn { child_thread_id } => {
                SpawnAgentStateView::StartingTurn { child_thread_id: child_thread_id@ }
            },
            SpawnAgentState::Finished => SpawnAgentStateView::Finished,
        }
    }
}

/// The request is answered with an error.
pub open spec fn refused<C, E, T>(failure: JSONRPCErrorErrorView) -> (
    SpawnAgentStateView<C, E>,
    SpawnAgentActionView<C, E, T>,
) {
    (SpawnAgentStateView::Finished, SpawnAgentActionView::Finish(Err(failure)))
}

/// How the request begins: by parsing the parent's id.
pub open spec fn opening<C, E, T>(
    request_id: ConnectionRequestIdView,
    params: CodexSpawnAgentParamsView,
    client: ClientView,
) -> (SpawnAgentStateView<C, E>, SpawnAgentActionView<C, E, T>) {
    (
        SpawnAgentStateView::ParsingThreadId {
            job: SpawnJobView {
                request_id,
                client,
                prompt: params.prompt,
                agent_role: params.agent_role,
                model: params.model,
            },
        },
        SpawnAgentActionView::ParseThreadId { id: params.parent_thread_id },
    )
}

/// The model of a child: the one that was asked for, or else its parent's.
pub open spec fn child_model(asked: Option<Seq<char>>, parent: Option<Seq<char>>) -> Option<
    Seq<char>,
> {
    match asked {
        Some(model) => Some(model),
        None => parent,
    }
}

/// The configuration of a child: its parent's in everything but the model.
pub open spec fn child_config<C>(
    asked: Option<Seq<char>>,
    parent: ThreadConfigView<C>,
) -> ThreadConfigView<C> {
    ThreadConfigView { model: child_model(asked, parent.model), ..parent }
}

/// How the child of a job is started below its parent.
pub open spec fn child_options<C, E, T>(
    job: SpawnJobView,
    parent: ParentView<C>,
    environments: E,
    trace: Option<T>,
) -> StartThreadOptionsView<C, E, T> {
    StartThreadOptionsView {
        config: child_config(job.model, parent.config),
        allow_provider_model_fallback: false,
        initial_history: InitialHistory::New,
        history_mode: None,
        session_source: Some(
            SessionSourceView::SubAgent(
                SubAgentSourceView::ThreadSpawn {
                    parent_thread_id: parent.thread_id,
                    depth: depth_below(parent.session_source),
                    agent_path: None,
                    agent_nickname: None,
                    agent_role: job.agent_role,
                },
            ),
        ),
        thread_source: Some(ThreadSource::Subagent),
        dynamic_tools: Seq::empty(),
        metrics_service_name: None,
        parent_trace: trace,
        environments,
        thread_extension_init: ThreadExtensionInit::Usual,
        supports_openai_form_elicitation: job.client.supports_openai_form_elicitation,
    }
}

/// The first turn of a child: the prompt and nothing else.
pub open spec fn first_turn(child_thread_id: Seq<char>, prompt: Seq<char>) -> TurnStartParamsView {
    TurnStartParamsView {
        thread_id: child_thread_id,
        input: seq![UserInputView::Text { text: prompt, text_elements: Seq::empty() }],
        settings: TurnSettings::Defaults,
    }
}

/// The error for a child that could not be forked.
pub open spec fn fork_error(failure: SpawnFailureView) -> JSONRPCErrorErrorView {
    match failure {
        SpawnFailureView::InvalidRequest(reason) => error::invalid_request_view(reason),
        SpawnFailureView::Other(reason) => error::internal_error_view(
            "error forking thread: "@ + reason,
        ),
    }
}

/// How the request goes on when something is reported. What the request does
/// not wait for leaves it where it is.
pub open spec fn transition<C, E, T>(
    state: SpawnAgentStateView<C, E>,
    event: SpawnAgentEventView<C, E, T>,
) -> (SpawnAgentStateView<C, E>, SpawnAgentActionView<C, E, T>) {
    match (state, event) {
        (
            SpawnAgentStateView::ParsingThreadId { job },
            SpawnAgentEventView::ThreadIdParsed(parsed),
        ) => match parsed {
            Err(why) => refused(error::invalid_request_view("invalid thread id: "@ + why)),
            Ok(parent_thread_id) => (
                SpawnAgentStateView::FindingParent { job, parent_thread_id },
                SpawnAgentActionView::FindThread { thread_id: parent_thread_id },
            ),
        },
        (
            SpawnAgentStateView::FindingParent { job, parent_thread_id },
            SpawnAgentEventView::ThreadLookedUp { found },
        ) => if found {
            (
                SpawnAgentStateView::ReadingParent { job, parent_thread_id },
                SpawnAgentActionView::ReadParent { thread_id: parent_thread_id },
            )
        } else {
            refused(
                error::invalid_request_view("parent thread is not loaded: "@ + parent_thread_id),
            )
        },
        (
            SpawnAgentStateView::ReadingParent { job, parent_thread_id },
            SpawnAgentEventView::ParentRead { config, session_source },
        ) => (
            SpawnAgentStateView::SelectingEnvironments {
                job,
                parent: ParentView { thread_id: parent_thread_id, config, session_source },
            },
            SpawnAgentActionView::SelectEnvironments {
                cwd: config.cwd,
                workspace_roots: config.workspace_roots,
            },
        ),
        (
            SpawnAgentStateView::SelectingEnvironments { job, parent },
            SpawnAgentEventView::EnvironmentsSelected(environments),
        ) => (
            SpawnAgentStateView::ReadingTrace { job, parent, environments },
            SpawnAgentActionView::ReadTrace { request_id: job.request_id },
        ),
        (
            SpawnAgentStateView::ReadingTrace { job, parent, environments },
            SpawnAgentEventView::TraceRead(trace),
        ) => (
            SpawnAgentStateView::ForkingChild { job },
            SpawnAgentActionView::ForkChild {
                parent_thread_id: parent.thread_id,
                options: child_options(job, parent, environments, trace),
            },
        ),
        (
            SpawnAgentStateView::ForkingChild { job },
            SpawnAgentEventView::ChildForked(forked),
        ) => match forked {
            Err(failure) => refused(fork_error(failure)),
            Ok(child_thread_id) => (
                SpawnAgentStateView::AttachingListener { job, child_thread_id },
                SpawnAgentActionView::AttachListener {
                    thread_id: child_thread_id,
                    connections: seq![job.request_id.connection_id],
                },
            ),
        },
        (
            SpawnAgentStateView::AttachingListener { job, child_thread_id },
            SpawnAgentEventView::ListenerAttached,
        ) => (
            SpawnAgentStateView::StartingTurn { child_thread_id },
            SpawnAgentActionView::StartTurn {
                request_id: job.request_id,
                params: first_turn(child_thread_id, job.prompt),
                client: job.client,
            },
        ),
        (
            SpawnAgentStateView::StartingTurn { child_thread_id },
            SpawnAgentEventView::TurnStarted(started),
        ) => match started {
            Err(failure) => refused(failure),
            Ok(_) => (
                SpawnAgentStateView::Finished,
                SpawnAgentActionView::Finish(Ok(CodexSpawnAgentResponseView { child_thread_id })),
            ),
        },
        _ => (state, SpawnAgentActionView::Nothing),
    }
}

fn refuse<C, E, T>(error: JSONRPCErrorError) -> (ended: (
    SpawnAgentState<C, E>,
    SpawnAgentAction<C, E, T>,
))
    ensures
        (ended.0@, ended.1@) == refused::<C, E, T>(error@),
{
    (SpawnAgentState::Finished, SpawnAgentAction::Finish(Err(error)))
}

/// Opens a request for a child agent.
pub fn spawn_agent<C, E, T>(
    request_id: ConnectionRequestId,
    params: CodexSpawnAgentParams,
    app_server_client_name: Option<String>,
    app_server_client_version: Option<String>,
    supports_openai_form_elicitation: bool,
) -> (opened: (SpawnAgentState<C, E>, SpawnAgentAction<C, E, T>))
    ensures
        (opened.0@, opened.1@) == opening::<C, E, T>(
            request_id@,
            params@,
            ClientView {
                name: app_server_client_name.deep_view(),
                version: app_server_client_version.deep_view(),
                supports_openai_form_elicitation,
            },
        ),
{
    let client = Client {
        name: app_server_client_name,
        version: app_server_client_version,
        supports_openai_form_elicitation,
    };
    let job = SpawnJob {
        request_id,
        client,
        prompt: params.prompt,
        agent_role: params.agent_role,
        model: params.model,
    };
    (
        SpawnAgentState::ParsingThreadId { job },
        SpawnAgentAction::ParseThreadId { id: params.parent_thread_id },
    )
}

/// How the child of a job is started below its parent.
pub fn start_options<C, E, T>(
    job: &SpawnJob,
    parent: Parent<C>,
    environments: E,
    trace: Option<T>,
) -> (options: StartThreadOptions<C, E, T>)
    ensures
        options@ == child_options(job@, parent@, environments, trace),
{
    let depth: i32 = child_depth(&parent.session_source);
    let config = ThreadConfig {
        model: match &job.model {
            Some(model) => Some(model.clone()),
            None => parent.config.model,
        },
        cwd: parent.config.cwd,
        workspace_roots: parent.config.workspace_roots,
        rest: parent.config.rest,
    };
    let session_source = SessionSource::SubAgent(
        SubAgentSource::ThreadSpawn {
            parent_thread_id: parent.thread_id,
            depth,
            agent_path: None,
            agent_nickname: None,
            agent_role: match &job.agent_role {
                Some(role) => Some(role.clone()),
                None => None,
            },
        },
    );
    let options = StartThreadOptions {
        config,
        allow_provider_model_fallback: false,
        initial_history: InitialHistory::New,
        history_mode: None,
        session_source: Some(session_source),
        thread_source: Some(ThreadSource::Subagent),
        dynamic_tools: Vec::new(),
        metrics_service_name: None,
        parent_trace: trace,
        environments,
        thread_extension_init: ThreadExtensionInit::Usual,
        supports_openai_form_elicitation: job.client.supports_openai_form_elicitation,
    };
    assert(text::texts(options.dynamic_tools@) =~= Seq::empty());
    options
}

/// The first turn of a child.
fn prompt_turn(child_thread_id: String, prompt: String) -> (params: TurnStartParams)
    ensures
        params@ == first_turn(child_thread_id@, prompt@),
{
    let text_elements: Vec<String> = Vec::new();
    assert(text::texts(text_elements@) =~= Seq::empty());
    let mut input: Vec<UserInput> = Vec::new();
    input.push(UserInput::Text { text: prompt, text_elements });
    let params = TurnStartParams {
        thread_id: child_thread_id,
        input,
        settings: TurnSettings::Defaults,
    };
    assert(params@.input =~= first_turn(child_thread_id@, prompt@).input);
    params
}

impl<C, E> SpawnAgentState<C, E> {
    /// Goes on with the request when something is reported.
    pub fn step<T>(self, event: SpawnAgentEvent<C, E, T>) -> (next: (
        SpawnAgentState<C, E>,
        SpawnAgentAction<C, E, T>,
    ))
        ensures
            (next.0@, next.1@) == transition(self@, event@),
    {
        match (self, event) {
            (
                SpawnAgentState::ParsingThreadId { job },
                SpawnAgentEvent::ThreadIdParsed(parsed),
            ) => match parsed {
                Err(why) => refuse(
                    error::invalid_request_about("invalid thread id: ", why.as_str()),
                ),
                Ok(parent_thread_id) => {
                    let action = SpawnAgentAction::FindThread {
                        thread_id: parent_thread_id.clone(),
                    };
                    (SpawnAgentState::FindingParent { job, parent_thread_id }, action)
                },
            },
            (
                SpawnAgentState::FindingParent { job, parent_thread_id },
                SpawnAgentEvent::ThreadLookedUp { found },
            ) => if found {
                let action = SpawnAgentAction::ReadParent { thread_id: parent_thread_id.clone() };
                (SpawnAgentState::ReadingParent { job, parent_thread_id }, action)
            } else {
                refuse(
                    error::invalid_request_about(
                        "parent thread is not loaded: ",
                        parent_thread_id.as_str(),
                    ),
                )
            },
            (
                SpawnAgentState::ReadingParent { job, parent_thread_id },
                SpawnAgentEvent::ParentRead { config, session_source },
            ) => {
                let action = SpawnAgentAction::SelectEnvironments {
                    cwd: config.cwd.clone(),
                    workspace_roots: text::copy_all(&config.workspace_roots),
                };
                let parent = Parent { thread_id: parent_thread_id, config, session_source };
                (SpawnAgentState::SelectingEnvironments { job, parent }, action)
            },
            (
                SpawnAgentState::SelectingEnvironments { job, parent },
                SpawnAgentEvent::EnvironmentsSelected(environments),
            ) => {
                let action = SpawnAgentAction::ReadTrace { request_id: job.request_id.clone() };
                (SpawnAgentState::ReadingTrace { job, parent, environments }, action)
            },
            (
                SpawnAgentState::ReadingTrace { job, parent, environments },
                SpawnAgentEvent::TraceRead(trace),
            ) => {
                let parent_thread_id: String = parent.thread_id.clone();
                let options = start_options(&job, parent, environments, trace);
                (
                    SpawnAgentState::ForkingChild { job },
                    SpawnAgentAction::ForkChild { parent_thread_id, options },
                )
            },
            (
                SpawnAgentState::ForkingChild { job },
                SpawnAgentEvent::ChildForked(forked),
            ) => match forked {
                Err(SpawnFailure::InvalidRequest(reason)) => refuse(error::invalid_request(reason)),
                Err(SpawnFailure::Other(reason)) => refuse(
                    error::internal_error_about("error forking thread: ", reason.as_str()),
                ),
                Ok(child_thread_id) => {
                    let mut connections: Vec<ConnectionId> = Vec::new();
                    connections.push(job.request_id.connection_id);
                    assert(connections@ =~= seq![job.request_id.connection_id]);
                    let action = SpawnAgentAction::AttachListener {
                        thread_id: child_thread_id.clone(),
                        connections,
                    };
                    (SpawnAgentState::AttachingListener { job, child_thread_id }, action)
                },
            },
            (
                SpawnAgentState::AttachingListener { job, child_thread_id },
                SpawnAgentEvent::ListenerAttached,
            ) => {
                let params = prompt_turn(child_thread_id.clone(), job.prompt);
                (
                    SpawnAgentState::StartingTurn { child_thread_id },
                    SpawnAgentAction::StartTurn {
                        request_id: job.request_id,
                        params,
                        client: job.client,
                    },
                )
            },
            (
                SpawnAgentState::StartingTurn { child_thread_id },
                SpawnAgentEvent::TurnStarted(started),
            ) => match started {
                Err(failure) => refuse(failure),
                Ok(_) => (
                    SpawnAgentState::Finished,
                    SpawnAgentAction::Finish(Ok(CodexSpawnAgentResponse { child_thread_id })),
                ),
            },
            (state, _) => (state, SpawnAgentAction::Nothing),
        }
    }
}

} // verus!
