use codex_processor::error::{
    JSONRPCErrorError, INTERNAL_ERROR_CODE, INVALID_REQUEST_ERROR_CODE,
};
use codex_processor::history::UserInput;
use codex_processor::protocol::{
    CodexSpawnAgentParams, CodexSpawnAgentResponse, ConnectionId, ConnectionRequestId, RequestId,
};
use codex_processor::spawn_agent::{
    child_depth, spawn_agent, start_options, Client, InitialHistory, Parent, SessionSource,
    SpawnAgentAction, SpawnAgentEvent, SpawnAgentState, SpawnFailure, SpawnJob,
    StartThreadOptions, SubAgentSource, ThreadConfig, ThreadExtensionInit, ThreadSource,
    TurnSettings, TurnStartParams,
};

/// The rest of a configuration, the environments and the trace stand for
/// themselves.
type Event = SpawnAgentEvent<&'static str, Vec<u8>, u64>;
type Action = SpawnAgentAction<&'static str, Vec<u8>, u64>;
type State = SpawnAgentState<&'static str, Vec<u8>>;

fn request_id() -> ConnectionRequestId {
    ConnectionRequestId {
        connection_id: ConnectionId(5),
        request_id: RequestId::Text("r-1".to_string()),
    }
}

fn config(model: Option<&str>) -> ThreadConfig<&'static str> {
    ThreadConfig {
        model: model.map(|m| m.to_string()),
        cwd: "file:///w".to_string(),
        workspace_roots: vec!["file:///w".to_string(), "file:///v".to_string()],
        rest: "permissions",
    }
}

fn client() -> Client {
    Client {
        name: Some("gateway".to_string()),
        version: None,
        supports_openai_form_elicitation: true,
    }
}

fn open(model: Option<&str>) -> (State, Action) {
    spawn_agent(
        request_id(),
        CodexSpawnAgentParams {
            parent_thread_id: "P".to_string(),
            prompt: "fix the bug".to_string(),
            agent_role: Some("fixer".to_string()),
            model: model.map(|m| m.to_string()),
        },
        client().name,
        client().version,
        client().supports_openai_form_elicitation,
    )
}

fn fork_of(depth: i32) -> SessionSource {
    SessionSource::SubAgent(SubAgentSource::ThreadSpawn {
        parent_thread_id: "g".to_string(),
        depth,
        agent_path: Some("x".to_string()),
        agent_nickname: None,
        agent_role: None,
    })
}

fn finding() -> State {
    open(None)
        .0
        .step(Event::ThreadIdParsed(Ok("p".to_string())))
        .0
}

fn reading(model: Option<&str>) -> State {
    open(model)
        .0
        .step(Event::ThreadIdParsed(Ok("p".to_string())))
        .0
        .step(Event::ThreadLookedUp { found: true })
        .0
}

fn read(state: State, parent_model: Option<&str>, session_source: SessionSource) -> State {
    state
        .step::<u64>(Event::ParentRead {
            config: config(parent_model),
            session_source,
        })
        .0
}

fn fork(state: State) -> (State, Action) {
    state
        .step::<u64>(Event::EnvironmentsSelected(vec![1, 2]))
        .0
        .step(Event::TraceRead(Some(77)))
}

fn forking() -> State {
    fork(read(reading(None), None, SessionSource::Other)).0
}

fn options(
    model: Option<&str>,
    depth: i32,
) -> StartThreadOptions<&'static str, Vec<u8>, u64> {
    StartThreadOptions {
        config: config(model),
        allow_provider_model_fallback: false,
        initial_history: InitialHistory::New,
        history_mode: None,
        session_source: Some(SessionSource::SubAgent(SubAgentSource::ThreadSpawn {
            parent_thread_id: "p".to_string(),
            depth,
            agent_path: None,
            agent_nickname: None,
            agent_role: Some("fixer".to_string()),
        })),
        thread_source: Some(ThreadSource::Subagent),
        dynamic_tools: vec![],
        metrics_service_name: None,
        parent_trace: Some(77),
        environments: vec![1, 2],
        thread_extension_init: ThreadExtensionInit::Usual,
        supports_openai_form_elicitation: true,
    }
}

fn failed(code: i64, message: &str) -> Action {
    Action::Finish(Err(JSONRPCErrorError {
        code,
        message: message.to_string(),
        data: None,
    }))
}

#[test]
fn child_of_a_loaded_parent_is_spawned() {
    let (state, action) = open(None);
    assert_eq!(
        action,
        Action::ParseThreadId {
            id: "P".to_string()
        }
    );
    let (state, action) = state.step(Event::ThreadIdParsed(Ok("p".to_string())));
    assert_eq!(
        action,
        Action::FindThread {
            thread_id: "p".to_string()
        }
    );
    let (state, action) = state.step(Event::ThreadLookedUp { found: true });
    assert_eq!(
        action,
        Action::ReadParent {
            thread_id: "p".to_string()
        }
    );
    let (state, action) = state.step(Event::ParentRead {
        config: config(Some("big")),
        session_source: fork_of(2),
    });
    assert_eq!(
        action,
        Action::SelectEnvironments {
            cwd: "file:///w".to_string(),
            workspace_roots: vec!["file:///w".to_string(), "file:///v".to_string()],
        }
    );
    let (state, action) = state.step(Event::EnvironmentsSelected(vec![1, 2]));
    assert_eq!(
        action,
        Action::ReadTrace {
            request_id: request_id()
        }
    );
    let (state, action) = state.step(Event::TraceRead(Some(77)));
    assert_eq!(
        action,
        Action::ForkChild {
            parent_thread_id: "p".to_string(),
            options: options(Some("big"), 3),
        }
    );
    let (state, action) = state.step(Event::ChildForked(Ok("c".to_string())));
    assert_eq!(
        action,
        Action::AttachListener {
            thread_id: "c".to_string(),
            connections: vec![ConnectionId(5)],
        }
    );
    let (state, action) = state.step(Event::ListenerAttached);
    assert_eq!(
        action,
        Action::StartTurn {
            request_id: request_id(),
            params: TurnStartParams {
                thread_id: "c".to_string(),
                input: vec![UserInput::Text {
                    text: "fix the bug".to_string(),
                    text_elements: vec![],
                }],
                settings: TurnSettings::Defaults,
            },
            client: client(),
        }
    );
    let (state, action) = state.step(Event::TurnStarted(Ok(())));
    assert_eq!(
        action,
        Action::Finish(Ok(CodexSpawnAgentResponse {
            child_thread_id: "c".to_string()
        }))
    );
    assert_eq!(state, State::Finished);
    let (_, action) = state.step(Event::TurnStarted(Ok(())));
    assert_eq!(action, Action::Nothing);
}

#[test]
fn requested_model_replaces_that_of_the_parent() {
    for (asked, parent, model) in [
        (Some("small"), Some("big"), Some("small")),
        (Some("small"), None, Some("small")),
        (None, Some("big"), Some("big")),
        (None, None, None),
    ] {
        assert_eq!(
            fork(read(reading(asked), parent, SessionSource::Other)).1,
            Action::ForkChild {
                parent_thread_id: "p".to_string(),
                options: options(model, 1),
            }
        );
    }
}

#[test]
fn depth_grows_by_one_and_saturates() {
    assert_eq!(child_depth(&SessionSource::Other), 1);
    assert_eq!(
        child_depth(&SessionSource::SubAgent(SubAgentSource::Other)),
        1
    );
    assert_eq!(child_depth(&fork_of(1)), 2);
    assert_eq!(child_depth(&fork_of(-3)), -2);
    assert_eq!(child_depth(&fork_of(i32::MAX - 1)), i32::MAX);
    assert_eq!(child_depth(&fork_of(i32::MAX)), i32::MAX);
}

#[test]
fn depth_counts_the_forks() {
    let mut source = SessionSource::Other;
    for expected in 1..6 {
        let depth = child_depth(&source);
        assert_eq!(depth, expected);
        source = fork_of(depth);
    }
}

#[test]
fn malformed_parent_id_is_refused() {
    let (_, action) = open(None)
        .0
        .step(Event::ThreadIdParsed(Err("bad".to_string())));
    assert_eq!(
        action,
        failed(INVALID_REQUEST_ERROR_CODE, "invalid thread id: bad")
    );
}

#[test]
fn unloaded_parent_is_refused() {
    let (state, action) = finding().step(Event::ThreadLookedUp { found: false });
    assert_eq!(
        action,
        failed(
            INVALID_REQUEST_ERROR_CODE,
            "parent thread is not loaded: p"
        )
    );
    let (_, action) = state.step(Event::ParentRead {
        config: config(None),
        session_source: SessionSource::Other,
    });
    assert_eq!(action, Action::Nothing);
}

#[test]
fn failed_forks_are_reported() {
    let (_, action) = forking().step(Event::ChildForked(Err(
        SpawnFailure::InvalidRequest("too deep".to_string()),
    )));
    assert_eq!(action, failed(INVALID_REQUEST_ERROR_CODE, "too deep"));
    let (_, action) = forking().step(Event::ChildForked(Err(SpawnFailure::Other(
        "disk full".to_string(),
    ))));
    assert_eq!(
        action,
        failed(INTERNAL_ERROR_CODE, "error forking thread: disk full")
    );
}

#[test]
fn failed_turn_is_relayed() {
    let failure = JSONRPCErrorError {
        code: -1,
        message: "busy".to_string(),
        data: None,
    };
    let (_, action) = forking()
        .step(Event::ChildForked(Ok("c".to_string())))
        .0
        .step(Event::ListenerAttached)
        .0
        .step(Event::TurnStarted(Err(failure.clone())));
    assert_eq!(action, Action::Finish(Err(failure)));
}

#[test]
fn reports_out_of_turn_change_nothing() {
    let (state, action) = finding().step(Event::ChildForked(Ok("c".to_string())));
    assert_eq!(action, Action::Nothing);
    assert_eq!(state, finding());
}

#[test]
fn child_keeps_all_but_the_model_of_its_parent() {
    let job = SpawnJob {
        request_id: ConnectionRequestId {
            connection_id: ConnectionId(5),
            request_id: RequestId::Integer(3),
        },
        client: client(),
        prompt: "fix the bug".to_string(),
        agent_role: None,
        model: Some("small".to_string()),
    };
    let parent = Parent {
        thread_id: "p".to_string(),
        config: config(Some("big")),
        session_source: SessionSource::Other,
    };
    let started = start_options::<_, _, u64>(&job, parent, vec![9_u8], None);
    assert_eq!(started.config, config(Some("small")));
    assert_eq!(started.environments, vec![9]);
    assert_eq!(started.parent_trace, None);
    assert_eq!(
        started.session_source,
        Some(SessionSource::SubAgent(SubAgentSource::ThreadSpawn {
            parent_thread_id: "p".to_string(),
            depth: 1,
            agent_path: None,
            agent_nickname: None,
            agent_role: None,
        }))
    );
}

#[test]
fn request_ids_are_copied_whole() {
    assert_eq!(request_id().clone(), request_id());
    assert_eq!(RequestId::Integer(-4).clone(), RequestId::Integer(-4));
}
