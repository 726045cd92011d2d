//! The course of a request for a child agent: what is asked of the server after
//! each report, said in terms of the request and of what was reported before.
use crate::error::JSONRPCErrorErrorView;
use crate::history::UserInputView;
use crate::protocol::{
    CodexSpawnAgentParamsView, CodexSpawnAgentResponseView, ConnectionRequestIdView,
};
use crate::spawn_agent;
use crate::spawn_agent::{
    ClientView, InitialHistory, ParentView, SessionSourceView, SpawnAgentActionView,
    SpawnAgentEventView, SpawnAgentStateView, SpawnFailureView, SpawnJobView,
    StartThreadOptionsView, SubAgentSourceView, ThreadConfigView, ThreadExtensionInit, ThreadSource,
    TurnSettings, TurnStartParamsView,
};
use crate::spawn_laws;
use crate::spawn_laws::SpawnRun;
use vstd::prelude::*;

verus! {

/// What is reported for a child that can be forked and started.
pub struct SpawnCourse<C, E, T> {
    pub parent_thread_id: Seq<char>,
    pub config: ThreadConfigView<C>,
    pub session_source: SessionSourceView,
    pub environments: E,
    pub trace: Option<T>,
    pub child_thread_id: Seq<char>,
}

impl<C, E, T> SpawnCourse<C, E, T> {
    /// The report at `index`, counted from zero.
    pub open spec fn report(self, index: int) -> SpawnAgentEventView<C, E, T> {
        if index == 0 {
            SpawnAgentEventView::ThreadIdParsed(Ok(self.parent_thread_id))
        } else if index == 1 {
            SpawnAgentEventView::ThreadLookedUp { found: true }
        } else if index == 2 {
            SpawnAgentEventView::ParentRead {
                config: self.config,
                session_source: self.session_source,
            }
        } else if index == 3 {
            SpawnAgentEventView::EnvironmentsSelected(self.environments)
        } else if index == 4 {
            SpawnAgentEventView::TraceRead(self.trace)
        } else if index == 5 {
            SpawnAgentEventView::ChildForked(Ok(self.child_thread_id))
        } else if index == 6 {
            SpawnAgentEventView::ListenerAttached
        } else {
            SpawnAgentEventView::TurnStarted(Ok(()))
        }
    }

    /// Whether the first `count` reports of a run, of eight at most, are these.
    pub open spec fn leads(self, run: SpawnRun<C, E, T>, count: int) -> bool {
        &&& 0 <= count <= 8
        &&& count <= run.events.len()
        &&& forall|i: int| 0 <= i < count ==> #[trigger] run.events[i] == self.report(i)
    }
}

/// Where the request stands after `count` reports of a course.
spec fn standing<C, E, T>(
    run: SpawnRun<C, E, T>,
    course: SpawnCourse<C, E, T>,
    count: int,
) -> SpawnAgentStateView<C, E> {
    let job = SpawnJobView {
        request_id: run.request_id,
        client: run.client,
        prompt: run.params.prompt,
        agent_role: run.params.agent_role,
        model: run.params.model,
    };
    let parent_thread_id = course.parent_thread_id;
    let parent = ParentView {
        thread_id: parent_thread_id,
        config: course.config,
        session_source: course.session_source,
    };
    let child_thread_id = course.child_thread_id;
    if count == 0 {
        SpawnAgentStateView::ParsingThreadId { job }
    } else if count == 1 {
        SpawnAgentStateView::FindingParent { job, parent_thread_id }
    } else if count == 2 {
        SpawnAgentStateView::ReadingParent { job, parent_thread_id }
    } else if count == 3 {
        SpawnAgentStateView::SelectingEnvironments { job, parent }
    } else if count == 4 {
        SpawnAgentStateView::ReadingTrace { job, parent, environments: course.environments }
    } else if count == 5 {
        SpawnAgentStateView::ForkingChild { job }
    } else if count == 6 {
        SpawnAgentStateView::AttachingListener { job, child_thread_id }
    } else if count == 7 {
        SpawnAgentStateView::StartingTurn { child_thread_id }
    } else {
        SpawnAgentStateView::Finished
    }
}

proof fn lemma_standing<C, E, T>(
    run: SpawnRun<C, E, T>,
    course: SpawnCourse<C, E, T>,
    count: int,
)
    requires
        course.leads(run, count),
    ensures
        run.state(count) == standing(run, course, count),
    decreases count,
{
    if count > 0 {
        lemma_standing(run, course, count - 1);
        assert(run.events[count - 1] == course.report(count - 1));
    }
}

/// A request begins by having the parent's id parsed that it gives. While all
/// goes well, the thread of that id is looked up and read; the environments for
/// its working directory and workspace roots are selected; the trace of the
/// request is looked up; the child is forked off that thread with its
/// configuration, but for the model if the request names one, one below it, and
/// with the role of the request; the connection that made the request is
/// subscribed to the child; the child's first turn is started under the request
/// with the whole prompt; and the answer is the child's id.
pub proof fn law_course_of_a_spawned_child<C, E, T>(
    run: SpawnRun<C, E, T>,
    course: SpawnCourse<C, E, T>,
    count: int,
)
    requires
        course.leads(run, count),
    ensures
        count >= 1 ==> run.action(0) == (SpawnAgentActionView::<C, E, T>::FindThread {
            thread_id: course.parent_thread_id,
        }),
        count >= 2 ==> run.action(1) == (SpawnAgentActionView::<C, E, T>::ReadParent {
            thread_id: course.parent_thread_id,
        }),
        count >= 3 ==> run.action(2) == (SpawnAgentActionView::<C, E, T>::SelectEnvironments {
            cwd: course.config.cwd,
            workspace_roots: course.config.workspace_roots,
        }),
        count >= 4 ==> run.action(3) == (SpawnAgentActionView::<C, E, T>::ReadTrace {
            request_id: run.request_id,
        }),
        count >= 5 ==> run.action(4) == (SpawnAgentActionView::<C, E, T>::ForkChild {
            parent_thread_id: course.parent_thread_id,
            options: StartThreadOptionsView {
                config: ThreadConfigView {
                    model: match run.params.model {
                        Some(model) => Some(model),
                        None => course.config.model,
                    },
                    cwd: course.config.cwd,
                    workspace_roots: course.config.workspace_roots,
                    rest: course.config.rest,
                },
                allow_provider_model_fallback: false,
                initial_history: InitialHistory::New,
                history_mode: None,
                session_source: Some(
                    SessionSourceView::SubAgent(
                        SubAgentSourceView::ThreadSpawn {
                            parent_thread_id: course.parent_thread_id,
                            depth: match course.session_source {
                                SessionSourceView::SubAgent(
                                    SubAgentSourceView::ThreadSpawn { depth, .. },
                                ) => if depth < i32::MAX {
                                    (depth + 1) as i32
                                } else {
                                    depth
                                },
                                _ => 1,
                            },
                            agent_path: None,
                            agent_nickname: None,
                            agent_role: run.params.agent_role,
                        },
                    ),
                ),
                thread_source: Some(ThreadSource::Subagent),
                dynamic_tools: Seq::empty(),
                metrics_service_name: None,
                parent_trace: course.trace,
                environments: course.environments,
                thread_extension_init: ThreadExtensionInit::Usual,
                supports_openai_form_elicitation: run.client.supports_openai_form_elicitation,
            },
        }),
        count >= 6 ==> run.action(5) == (SpawnAgentActionView::<C, E, T>::AttachListener {
            thread_id: course.child_thread_id,
            connections: seq![run.request_id.connection_id],
        }),
        count >= 7 ==> run.action(6) == (SpawnAgentActionView::<C, E, T>::StartTurn {
            request_id: run.request_id,
            params: TurnStartParamsView {
                thread_id: course.child_thread_id,
                input: seq![
                    UserInputView::Text { text: run.params.prompt, text_elements: Seq::empty() },
                ],
                settings: TurnSettings::Defaults,
            },
            client: run.client,
        }),
        count >= 8 ==> run.action(7) == SpawnAgentActionView::<C, E, T>::Finish(
            Ok(CodexSpawnAgentResponseView { child_thread_id: course.child_thread_id }),
        ),
    decreases count,
{
    if count > 0 {
        law_course_of_a_spawned_child(run, course, count - 1);
        lemma_standing(run, course, count - 1);
        assert(run.events[count - 1] == course.report(count - 1));
    }
}

/// The answer with the code of an invalid request.
pub open spec fn blames_request<C, E, T>(message: Seq<char>) -> SpawnAgentActionView<C, E, T> {
    SpawnAgentActionView::Finish(
        Err(JSONRPCErrorErrorView { code: (-32600) as i64, message, data: None }),
    )
}

/// The answer with the code of an internal error.
pub open spec fn blames_server<C, E, T>(message: Seq<char>) -> SpawnAgentActionView<C, E, T> {
    SpawnAgentActionView::Finish(
        Err(JSONRPCErrorErrorView { code: (-32603) as i64, message, data: None }),
    )
}

/// What ends a request early ends it with its own answer: an id that is none and
/// a parent that is not loaded blame the request and quote the cause; a fork
/// that was found invalid blames the request in the words that came, and any
/// other failed fork blames the server; a turn that could not be started ends it
/// with the error that came.
pub proof fn law_early_ends_of_a_spawn_request<C, E, T>(
    run: SpawnRun<C, E, T>,
    course: SpawnCourse<C, E, T>,
    count: int,
    why: Seq<char>,
    failure: JSONRPCErrorErrorView,
)
    requires
        course.leads(run, count),
        run.has(count),
    ensures
        count == 0 && run.events[count] == SpawnAgentEventView::<C, E, T>::ThreadIdParsed(Err(why))
            ==> run.action(count) == blames_request::<C, E, T>("invalid thread id: "@ + why),
        count == 1 && run.events[count] == (SpawnAgentEventView::<C, E, T>::ThreadLookedUp {
            found: false,
        }) ==> run.action(count) == blames_request::<C, E, T>(
            "parent thread is not loaded: "@ + course.parent_thread_id,
        ),
        count == 5 && run.events[count] == SpawnAgentEventView::<C, E, T>::ChildForked(
            Err(SpawnFailureView::InvalidRequest(why)),
        ) ==> run.action(count) == blames_request::<C, E, T>(why),
        count == 5 && run.events[count] == SpawnAgentEventView::<C, E, T>::ChildForked(
            Err(SpawnFailureView::Other(why)),
        ) ==> run.action(count) == blames_server::<C, E, T>("error forking thread: "@ + why),
        count == 7 && run.events[count] == SpawnAgentEventView::<C, E, T>::TurnStarted(Err(failure))
            ==> run.action(count) == SpawnAgentActionView::<C, E, T>::Finish(Err(failure)),
{
    lemma_standing(run, course, count);
}

/// A report that is not about what was last asked for leads to nothing and
/// leaves the request where it is; and so does any report once it is answered.
pub proof fn law_spawn_reports_out_of_turn_lead_nowhere<C, E, T>(
    run: SpawnRun<C, E, T>,
    course: SpawnCourse<C, E, T>,
    count: int,
)
    requires
        course.leads(run, count),
        run.has(count),
        count == 0 ==> !(run.events[count] is ThreadIdParsed),
        count == 1 ==> !(run.events[count] is ThreadLookedUp),
        count == 2 ==> !(run.events[count] is ParentRead),
        count == 3 ==> !(run.events[count] is EnvironmentsSelected),
        count == 4 ==> !(run.events[count] is TraceRead),
        count == 5 ==> !(run.events[count] is ChildForked),
        count == 6 ==> !(run.events[count] is ListenerAttached),
        count == 7 ==> !(run.events[count] is TurnStarted),
    ensures
        run.action(count) is Nothing,
        run.state(count + 1) == run.state(count),
{
    lemma_standing(run, course, count);
}

/// A request begins with the parent's id that it gives, whoever makes it.
pub proof fn law_given_parent_id_is_parsed<C, E, T>(
    request_id: ConnectionRequestIdView,
    params: CodexSpawnAgentParamsView,
    client: ClientView,
)
    ensures
        spawn_agent::opening::<C, E, T>(request_id, params, client).1
            == (SpawnAgentActionView::<C, E, T>::ParseThreadId { id: params.parent_thread_id }),
{
}

/// What the request knows of itself, wherever it stands.
spec fn keeps_request<C, E, T>(run: SpawnRun<C, E, T>, state: SpawnAgentStateView<C, E>) -> bool {
    match state {
        SpawnAgentStateView::ParsingThreadId { job }
        | SpawnAgentStateView::FindingParent { job, .. }
        | SpawnAgentStateView::ReadingParent { job, .. }
        | SpawnAgentStateView::SelectingEnvironments { job, .. }
        | SpawnAgentStateView::ReadingTrace { job, .. }
        | SpawnAgentStateView::ForkingChild { job }
        | SpawnAgentStateView::AttachingListener { job, .. } => {
            &&& job.request_id == run.request_id
            &&& job.client == run.client
            &&& job.prompt == run.params.prompt
            &&& job.agent_role == run.params.agent_role
            &&& job.model == run.params.model
        },
        _ => true,
    }
}

proof fn lemma_keeps_request<C, E, T>(run: SpawnRun<C, E, T>, count: int)
    requires
        0 <= count <= run.events.len(),
    ensures
        keeps_request(run, run.state(count)),
    decreases count,
{
    if count > 0 {
        lemma_keeps_request(run, count - 1);
    }
}

/// In every run, the thread that is looked up is the one whose id was just
/// parsed; the environments are selected for the configuration that was just
/// read; the trace is that of the request; the connection that is subscribed is
/// the one that made the request, and alone, to the child that was just forked;
/// and no thread id but that of the request is ever parsed.
pub proof fn law_actions_are_about_the_request<C, E, T>(run: SpawnRun<C, E, T>, index: int)
    requires
        run.has(index),
    ensures
        run.action(index) matches SpawnAgentActionView::FindThread { thread_id }
            ==> run.events[index] == SpawnAgentEventView::<C, E, T>::ThreadIdParsed(Ok(thread_id)),
        run.action(index) matches SpawnAgentActionView::SelectEnvironments { cwd, workspace_roots }
            ==> run.events[index] matches SpawnAgentEventView::ParentRead { config, .. }
            && config.cwd == cwd && config.workspace_roots == workspace_roots,
        run.action(index) matches SpawnAgentActionView::ReadTrace { request_id } ==> request_id
            == run.request_id,
        run.action(index) matches SpawnAgentActionView::AttachListener { thread_id, connections }
            ==> {
            &&& run.events[index] == SpawnAgentEventView::<C, E, T>::ChildForked(Ok(thread_id))
            &&& connections.len() == 1
            &&& connections[0] == run.request_id.connection_id
        },
        !(run.action(index) is ParseThreadId),
{
    lemma_keeps_request(run, index);
}

/// In every run, a child that is forked has the model that the request names,
/// and that of its parent only if the request names none; everything else of
/// its configuration is as it was read of its parent.
pub proof fn law_requested_model_is_the_childs<C, E, T>(run: SpawnRun<C, E, T>, index: int)
    requires
        run.has(index),
        run.action(index) is ForkChild,
    ensures
        run.action(index) matches SpawnAgentActionView::ForkChild { options, .. } && {
            &&& run.params.model matches Some(model) ==> options.config.model == Some(model)
            &&& exists|read: int|
                0 <= read < index && run.action(read) is SelectEnvironments && (
                #[trigger] run.events[read] matches SpawnAgentEventView::ParentRead { config, .. }
                    && {
                    &&& run.params.model is None ==> options.config.model == config.model
                    &&& options.config.cwd == config.cwd
                    &&& options.config.workspace_roots == config.workspace_roots
                    &&& options.config.rest == config.rest
                })
            &&& options.supports_openai_form_elicitation
                == run.client.supports_openai_form_elicitation
            &&& !options.allow_provider_model_fallback
        },
{
    lemma_keeps_request(run, index);
    let parent = spawn_laws::law_child_is_forked_only_off_a_loaded_parent(run, index);
    let options = run.action(index)->ForkChild_options;
    let (read, given) = choose|read: int, given: int|
        0 <= read < given < index && #[trigger] run.reads_at(read, parent) && run.selects_at(
            read,
            options.config,
        ) && #[trigger] run.is_given_at(given, options.environments);
    assert(run.events[read] matches SpawnAgentEventView::ParentRead { config, .. } && config
        == parent.config);
}

/// In every run, a turn that is started has the whole prompt of the request as
/// its one input, as plain text; it is started on the child that was forked,
/// under the request, on behalf of its client, and with default settings.
pub proof fn law_first_turn_has_the_whole_prompt<C, E, T>(run: SpawnRun<C, E, T>, index: int)
    requires
        run.has(index),
        run.action(index) is StartTurn,
    ensures
        run.action(index) matches SpawnAgentActionView::StartTurn { request_id, params, client }
            && {
            &&& params.input.len() == 1
            &&& params.input[0] matches UserInputView::Text { text, text_elements } && text
                == run.params.prompt && text_elements.len() == 0
            &&& params.settings is Defaults
            &&& request_id == run.request_id
            &&& client == run.client
            &&& exists|forked: int|
                0 <= forked < index && #[trigger] run.events[forked] == SpawnAgentEventView::<
                    C,
                    E,
                    T,
                >::ChildForked(Ok(params.thread_id))
        },
{
    lemma_keeps_request(run, index);
    spawn_laws::law_turn_starts_on_the_attached_child(run, index);
    let (forked, attached, child_thread_id) = choose|
        forked: int,
        attached: int,
        child_thread_id: Seq<char>,
    |
        0 <= forked < attached < index && #[trigger] run.forks_at(forked)
            && #[trigger] run.attaches_at(attached, child_thread_id) && #[trigger] run.starts_at(
            index,
            child_thread_id,
        );
    assert(run.events[attached] == SpawnAgentEventView::<C, E, T>::ChildForked(
        Ok(child_thread_id),
    ));
}

/// In every run, the id in the answer is the one under which the child was
/// reported forked.
pub proof fn law_answered_id_is_the_forked_one<C, E, T>(run: SpawnRun<C, E, T>, index: int)
    requires
        run.has(index),
        run.action(index) matches SpawnAgentActionView::Finish(Ok(_)),
    ensures
        run.action(index) matches SpawnAgentActionView::Finish(Ok(response)) && exists|forked: int|
            0 <= forked < index && #[trigger] run.events[forked] == SpawnAgentEventView::<
                C,
                E,
                T,
            >::ChildForked(Ok(response.child_thread_id)),
{
    spawn_laws::law_response_names_the_running_child(run, index);
    let id = (run.action(index)->Finish_0->Ok_0).child_thread_id;
    let (attached, started) = choose|attached: int, started: int|
        0 <= attached < started < index && #[trigger] run.attaches_at(attached, id)
            && #[trigger] run.starts_at(started, id);
    assert(run.events[attached] == SpawnAgentEventView::<C, E, T>::ChildForked(Ok(id)));
}

/// The depth below a parent that was forked itself is one more than the
/// parent's, unless that is the greatest there is; below any other it is one.
pub proof fn law_child_is_one_below_its_parent(
    parent_thread_id: Seq<char>,
    depth: i32,
    agent_path: Option<Seq<char>>,
    agent_nickname: Option<Seq<char>>,
    agent_role: Option<Seq<char>>,
)
    ensures
        ({
            let below = spawn_agent::depth_below(
                SessionSourceView::SubAgent(
                    SubAgentSourceView::ThreadSpawn {
                        parent_thread_id,
                        depth,
                        agent_path,
                        agent_nickname,
                        agent_role,
                    },
                ),
            );
            &&& depth < i32::MAX ==> below - depth == 1
            &&& depth == i32::MAX ==> below == depth
        }),
        spawn_agent::depth_below(SessionSourceView::SubAgent(SubAgentSourceView::Other)) == 1,
        spawn_agent::depth_below(SessionSourceView::Other) == 1,
{
}

} // verus!
