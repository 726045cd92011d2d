//! What holds of every request for a child agent, whatever the server reports
//! and in whatever order.
use crate::error;
use crate::protocol::{
    CodexSpawnAgentParamsView, CodexSpawnAgentResponseView, ConnectionRequestIdView,
};
use crate::spawn_agent;
use crate::spawn_agent::{
    ClientView, ParentView, SessionSourceView, SpawnAgentActionView, SpawnAgentEventView,
    SpawnAgentStateView, SpawnJobView, SubAgentSourceView, ThreadConfigView,
};
use vstd::prelude::*;

verus! {

/// A request for a child agent with everything that is reported while it is
/// served.
pub struct SpawnRun<C, E, T> {
    pub request_id: ConnectionRequestIdView,
    pub client: ClientView,
    pub params: CodexSpawnAgentParamsView,
    pub events: Seq<SpawnAgentEventView<C, E, T>>,
}

impl<C, E, T> SpawnRun<C, E, T> {
    /// Where the request stands after the first `count` events.
    pub open spec fn state(self, count: int) -> SpawnAgentStateView<C, E>
        decreases count,
    {
        if count <= 0 {
            spawn_agent::opening::<C, E, T>(self.request_id, self.params, self.client).0
        } else {
            spawn_agent::transition(self.state(count - 1), self.events[count - 1]).0
        }
    }

    /// What the event at `index` leads to.
    pub open spec fn action(self, index: int) -> SpawnAgentActionView<C, E, T> {
        spawn_agent::transition(self.state(index), self.events[index]).1
    }

    /// Whether there is an event at `index`.
    pub open spec fn has(self, index: int) -> bool {
        0 <= index < self.events.len()
    }

    /// Whether the event at `index` is the parent's parsed id, which the
    /// request waited for.
    pub open spec fn identifies_at(self, index: int, thread_id: Seq<char>) -> bool {
        &&& self.state(index) is ParsingThreadId
        &&& self.events[index] == SpawnAgentEventView::<C, E, T>::ThreadIdParsed(Ok(thread_id))
    }

    /// Whether the event at `index` is that the parent is loaded, which the
    /// request waited for.
    pub open spec fn finds_at(self, index: int) -> bool {
        &&& self.state(index) is FindingParent
        &&& self.events[index] == (SpawnAgentEventView::<C, E, T>::ThreadLookedUp { found: true })
    }

    /// Whether the event at `index` is a copy of the parent's configuration with
    /// its source, which the request waited for.
    pub open spec fn reads_at(self, index: int, parent: ParentView<C>) -> bool {
        &&& self.state(index) matches SpawnAgentStateView::ReadingParent { parent_thread_id, .. }
            && parent_thread_id == parent.thread_id
        &&& self.events[index] == (SpawnAgentEventView::<C, E, T>::ParentRead {
            config: parent.config,
            session_source: parent.session_source,
        })
    }

    /// Whether the event at `index` leads to environments being selected for
    /// the working directory and the workspace roots of a configuration.
    pub open spec fn selects_at(self, index: int, config: ThreadConfigView<C>) -> bool {
        self.action(index) == (SpawnAgentActionView::<C, E, T>::SelectEnvironments {
            cwd: config.cwd,
            workspace_roots: config.workspace_roots,
        })
    }

    /// Whether the event at `index` is the environments that were selected, on
    /// which the trace of the request is to be looked up.
    pub open spec fn is_given_at(self, index: int, environments: E) -> bool {
        &&& self.state(index) is SelectingEnvironments
        &&& self.events[index] == SpawnAgentEventView::<C, E, T>::EnvironmentsSelected(environments)
        &&& self.action(index) == (SpawnAgentActionView::<C, E, T>::ReadTrace {
            request_id: self.request_id,
        })
    }

    /// Whether the event at `index` leads to a child being forked.
    pub open spec fn forks_at(self, index: int) -> bool {
        self.action(index) is ForkChild
    }

    /// Whether the event at `index` is that the child was forked, on which the
    /// connection that made the request is to be subscribed to it.
    pub open spec fn attaches_at(self, index: int, child_thread_id: Seq<char>) -> bool {
        &&& self.events[index] == SpawnAgentEventView::<C, E, T>::ChildForked(Ok(child_thread_id))
        &&& self.action(index) == (SpawnAgentActionView::<C, E, T>::AttachListener {
            thread_id: child_thread_id,
            connections: seq![self.request_id.connection_id],
        })
    }

    /// Whether the event at `index` leads to the child's first turn being
    /// started under the request, on behalf of its client, with the prompt and
    /// nothing else as its input and with every setting at its default.
    pub open spec fn starts_at(self, index: int, child_thread_id: Seq<char>) -> bool {
        self.action(index) == (SpawnAgentActionView::<C, E, T>::StartTurn {
            request_id: self.request_id,
            params: spawn_agent::first_turn(child_thread_id, self.params.prompt),
            client: self.client,
        })
    }
}

/// How far a state is from the beginning.
pub open spec fn rank<C, E>(state: SpawnAgentStateView<C, E>) -> int {
    match state {
        SpawnAgentStateView::ParsingThreadId { .. } => 0,
        SpawnAgentStateView::FindingParent { .. } => 1,
        SpawnAgentStateView::ReadingParent { .. } => 2,
        SpawnAgentStateView::SelectingEnvironments { .. } => 3,
        SpawnAgentStateView::ReadingTrace { .. } => 4,
        SpawnAgentStateView::ForkingChild { .. } => 5,
        SpawnAgentStateView::AttachingListener { .. } => 6,
        SpawnAgentStateView::StartingTurn { .. } => 7,
        SpawnAgentStateView::Finished => 8,
    }
}

/// An event leaves the request where it is and asks for nothing, or takes it
/// forward and asks for something.
pub proof fn law_step_goes_forward_or_nowhere<C, E, T>(
    state: SpawnAgentStateView<C, E>,
    event: SpawnAgentEventView<C, E, T>,
)
    ensures
        ({
            let (next, action) = spawn_agent::transition(state, event);
            if action is Nothing {
                next == state
            } else {
                rank(next) > rank(state)
            }
        }),
{
}

/// Nothing that is reported moves an answered request.
pub proof fn law_answered_request_stays_answered<C, E, T>(event: SpawnAgentEventView<C, E, T>)
    ensures
        spawn_agent::transition(SpawnAgentStateView::Finished, event) == (
            SpawnAgentStateView::<C, E>::Finished,
            SpawnAgentActionView::<C, E, T>::Nothing,
        ),
{
}

/// Whether an event is what a request in the given state waits for.
pub open spec fn awaits<C, E, T>(
    state: SpawnAgentStateView<C, E>,
    event: SpawnAgentEventView<C, E, T>,
) -> bool {
    match state {
        SpawnAgentStateView::ParsingThreadId { .. } => event is ThreadIdParsed,
        SpawnAgentStateView::FindingParent { .. } => event is ThreadLookedUp,
        SpawnAgentStateView::ReadingParent { .. } => event is ParentRead,
        SpawnAgentStateView::SelectingEnvironments { .. } => event is EnvironmentsSelected,
        SpawnAgentStateView::ReadingTrace { .. } => event is TraceRead,
        SpawnAgentStateView::ForkingChild { .. } => event is ChildForked,
        SpawnAgentStateView::AttachingListener { .. } => event is ListenerAttached,
        SpawnAgentStateView::StartingTurn { .. } => event is TurnStarted,
        SpawnAgentStateView::Finished => false,
    }
}

/// A request goes on exactly with what it waits for, and then waits for the
/// outcome of what it has asked for: a server that reports on every action can
/// bring it to its end.
pub proof fn law_request_waits_for_what_it_asked<C, E, T>(
    state: SpawnAgentStateView<C, E>,
    event: SpawnAgentEventView<C, E, T>,
)
    ensures
        ({
            let (next, action) = spawn_agent::transition(state, event);
            &&& !(action is Nothing) <==> awaits(state, event)
            &&& action is FindThread ==> next is FindingParent
            &&& action is ReadParent ==> next is ReadingParent
            &&& action is SelectEnvironments ==> next is SelectingEnvironments
            &&& action is ReadTrace ==> next is ReadingTrace
            &&& action is ForkChild ==> next is ForkingChild
            &&& action is AttachListener ==> next is AttachingListener
            &&& action is StartTurn ==> next is StartingTurn
            &&& action is Finish ==> next is Finished
            &&& !(action is ParseThreadId)
        }),
{
}

proof fn lemma_rank_never_falls<C, E, T>(run: SpawnRun<C, E, T>, earlier: int, later: int)
    requires
        0 <= earlier <= later,
    ensures
        rank(run.state(earlier)) <= rank(run.state(later)),
    decreases later - earlier,
{
    if earlier < later {
        lemma_rank_never_falls(run, earlier, later - 1);
        law_step_goes_forward_or_nowhere(run.state(later - 1), run.events[later - 1]);
    }
}

proof fn lemma_actions_climb<C, E, T>(run: SpawnRun<C, E, T>, earlier: int, later: int)
    requires
        0 <= earlier < later,
        !(run.action(earlier) is Nothing),
    ensures
        rank(run.state(earlier)) < rank(run.state(later)),
{
    law_step_goes_forward_or_nowhere(run.state(earlier), run.events[earlier]);
    assert(run.state(earlier + 1) == spawn_agent::transition(
        run.state(earlier),
        run.events[earlier],
    ).0);
    lemma_rank_never_falls(run, earlier + 1, later);
}

/// What a job keeps of the request it was made for.
spec fn job_is_of<C, E, T>(run: SpawnRun<C, E, T>, job: SpawnJobView) -> bool {
    &&& job.request_id == run.request_id
    &&& job.client == run.client
    &&& job.prompt == run.params.prompt
    &&& job.agent_role == run.params.agent_role
    &&& job.model == run.params.model
}

/// The parent was identified and found by the first `count` events.
spec fn was_found<C, E, T>(run: SpawnRun<C, E, T>, count: int, thread_id: Seq<char>) -> bool {
    exists|identified: int, found: int|
        0 <= identified < found < count && #[trigger] run.identifies_at(identified, thread_id)
            && #[trigger] run.finds_at(found)
}

/// The parent was found and then read by the first `count` events, and the
/// environments were to be selected for its configuration.
spec fn was_read<C, E, T>(run: SpawnRun<C, E, T>, count: int, parent: ParentView<C>) -> bool {
    &&& was_found(run, count, parent.thread_id)
    &&& exists|read: int|
        0 <= read < count && #[trigger] run.reads_at(read, parent) && run.selects_at(
            read,
            parent.config,
        )
}

/// The environments were given by one of the first `count` events, after they
/// were to be selected for the parent's configuration.
spec fn was_given<C, E, T>(
    run: SpawnRun<C, E, T>,
    count: int,
    parent: ParentView<C>,
    environments: E,
) -> bool {
    exists|read: int, given: int|
        0 <= read < given < count && #[trigger] run.reads_at(read, parent) && run.selects_at(
            read,
            parent.config,
        ) && #[trigger] run.is_given_at(given, environments)
}

/// A child was to be forked, and then subscribed to, by the first `count`
/// events.
spec fn was_attached<C, E, T>(run: SpawnRun<C, E, T>, count: int, child_thread_id: Seq<char>) -> bool {
    exists|forked: int, attached: int|
        0 <= forked < attached < count && #[trigger] run.forks_at(forked)
            && #[trigger] run.attaches_at(attached, child_thread_id)
}

/// What is known of a request after its first `count` events.
spec fn inv<C, E, T>(run: SpawnRun<C, E, T>, count: int) -> bool {
    match run.state(count) {
        SpawnAgentStateView::ParsingThreadId { job } => job_is_of(run, job),
        SpawnAgentStateView::FindingParent { job, parent_thread_id } => {
            &&& job_is_of(run, job)
            &&& exists|identified: int|
                0 <= identified < count && #[trigger] run.identifies_at(
                    identified,
                    parent_thread_id,
                )
        },
        SpawnAgentStateView::ReadingParent { job, parent_thread_id } => {
            &&& job_is_of(run, job)
            &&& was_found(run, count, parent_thread_id)
        },
        SpawnAgentStateView::SelectingEnvironments { job, parent } => {
            &&& job_is_of(run, job)
            &&& was_read(run, count, parent)
        },
        SpawnAgentStateView::ReadingTrace { job, parent, environments } => {
            &&& job_is_of(run, job)
            &&& was_found(run, count, parent.thread_id)
            &&& was_given(run, count, parent, environments)
        },
        SpawnAgentStateView::ForkingChild { job } => {
            &&& job_is_of(run, job)
            &&& exists|forked: int| 0 <= forked < count && #[trigger] run.forks_at(forked)
        },
        SpawnAgentStateView::AttachingListener { job, child_thread_id } => {
            &&& job_is_of(run, job)
            &&& was_attached(run, count, child_thread_id)
        },
        SpawnAgentStateView::StartingTurn { child_thread_id } => {
            exists|attached: int, started: int|
                0 <= attached < started < count && #[trigger] run.attaches_at(
                    attached,
                    child_thread_id,
                ) && #[trigger] run.starts_at(started, child_thread_id)
        },
        SpawnAgentStateView::Finished => true,
    }
}

proof fn lemma_inv<C, E, T>(run: SpawnRun<C, E, T>, count: int)
    requires
        0 <= count <= run.events.len(),
    ensures
        inv(run, count),
    decreases count,
{
    if count > 0 {
        let last = count - 1;
        lemma_inv(run, last);
        let event = run.events[last];
        match run.state(last) {
            SpawnAgentStateView::ParsingThreadId { .. } => {
                if let SpawnAgentEventView::ThreadIdParsed(Ok(thread_id)) = event {
                    assert(run.identifies_at(last, thread_id));
                    assert(run.state(count)->FindingParent_parent_thread_id == thread_id);
                }
            },
            SpawnAgentStateView::FindingParent { parent_thread_id, .. } => {
                let identified = choose|identified: int|
                    0 <= identified < last && #[trigger] run.identifies_at(
                        identified,
                        parent_thread_id,
                    );
                if event == (SpawnAgentEventView::<C, E, T>::ThreadLookedUp { found: true }) {
                    assert(run.identifies_at(identified, parent_thread_id) && run.finds_at(last));
                }
            },
            SpawnAgentStateView::ReadingParent { parent_thread_id, .. } => {
                if let SpawnAgentEventView::ParentRead { config, session_source } = event {
                    let parent = ParentView { thread_id: parent_thread_id, config, session_source };
                    assert(run.reads_at(last, parent) && run.selects_at(last, config));
                    assert(run.state(count)->SelectingEnvironments_parent == parent);
                }
            },
            SpawnAgentStateView::SelectingEnvironments { parent, .. } => {
                let read = choose|read: int|
                    0 <= read < last && #[trigger] run.reads_at(read, parent) && run.selects_at(
                        read,
                        parent.config,
                    );
                if let SpawnAgentEventView::EnvironmentsSelected(environments) = event {
                    assert(run.reads_at(read, parent) && run.is_given_at(last, environments));
                    assert(run.state(count)->ReadingTrace_environments == environments);
                }
            },
            SpawnAgentStateView::ReadingTrace { .. } => {
                if event is TraceRead {
                    assert(run.forks_at(last));
                }
            },
            SpawnAgentStateView::ForkingChild { .. } => {
                let forked = choose|forked: int| 0 <= forked < last && #[trigger] run.forks_at(forked);
                if let SpawnAgentEventView::ChildForked(Ok(child_thread_id)) = event {
                    assert(run.forks_at(forked) && run.attaches_at(last, child_thread_id));
                    assert(run.state(count)->AttachingListener_child_thread_id == child_thread_id);
                }
            },
            SpawnAgentStateView::AttachingListener { child_thread_id, .. } => {
                let (forked, attached) = choose|forked: int, attached: int|
                    0 <= forked < attached < last && #[trigger] run.forks_at(forked)
                        && #[trigger] run.attaches_at(attached, child_thread_id);
                if event is ListenerAttached {
                    assert(run.attaches_at(attached, child_thread_id) && run.starts_at(
                        last,
                        child_thread_id,
                    ));
                    assert(run.state(count)->StartingTurn_child_thread_id == child_thread_id);
                }
            },
            _ => {},
        }
    }
}

/// A child is forked only off a parent that was found loaded and then read. It
/// is recorded as forked off that very parent, one below it, with the role that
/// was asked for, and starts with an empty history. Its configuration is its
/// parent's in everything but the model, which is the one that was asked for,
/// if any was. Its environments are those that were selected for its working
/// directory and workspace roots, and it is part of the request's trace.
pub proof fn law_child_is_forked_only_off_a_loaded_parent<C, E, T>(
    run: SpawnRun<C, E, T>,
    index: int,
) -> (parent: ParentView<C>)
    requires
        run.has(index),
        run.action(index) is ForkChild,
    ensures
        run.action(index) matches SpawnAgentActionView::ForkChild { parent_thread_id, options } && {
            &&& parent_thread_id == parent.thread_id
            &&& exists|identified: int, found: int|
                0 <= identified < found < index && #[trigger] run.identifies_at(
                    identified,
                    parent_thread_id,
                ) && #[trigger] run.finds_at(found)
            &&& options.session_source == Some(
                SessionSourceView::SubAgent(
                    SubAgentSourceView::ThreadSpawn {
                        parent_thread_id,
                        depth: spawn_agent::depth_below(parent.session_source),
                        agent_path: None,
                        agent_nickname: None,
                        agent_role: run.params.agent_role,
                    },
                ),
            )
            &&& options.initial_history is New
            &&& options.config == spawn_agent::child_config(run.params.model, parent.config)
            &&& options.config.cwd == parent.config.cwd
            &&& options.config.workspace_roots == parent.config.workspace_roots
            &&& options.config.rest == parent.config.rest
            &&& exists|read: int, given: int|
                0 <= read < given < index && #[trigger] run.reads_at(read, parent)
                    && run.selects_at(read, options.config) && #[trigger] run.is_given_at(
                    given,
                    options.environments,
                )
            &&& run.events[index] == SpawnAgentEventView::<C, E, T>::TraceRead(options.parent_trace)
        },
{
    lemma_inv(run, index);
    let parent = run.state(index)->ReadingTrace_parent;
    let known = run.state(index)->ReadingTrace_environments;
    let options = run.action(index)->ForkChild_options;
    let named = run.action(index)->ForkChild_parent_thread_id;
    assert(options.environments == known);
    assert(named == parent.thread_id);
    let (identified, found) = choose|identified: int, found: int|
        0 <= identified < found < index && #[trigger] run.identifies_at(
            identified,
            parent.thread_id,
        ) && #[trigger] run.finds_at(found);
    assert(run.identifies_at(identified, named) && run.finds_at(found));
    let (read, given) = choose|read: int, given: int|
        0 <= read < given < index && #[trigger] run.reads_at(read, parent) && run.selects_at(
            read,
            parent.config,
        ) && #[trigger] run.is_given_at(given, known);
    assert(run.reads_at(read, parent) && run.is_given_at(given, options.environments));
    assert(run.selects_at(read, options.config));
    parent
}

/// A parent that is not loaded makes the request invalid, and nothing is ever
/// forked in its place.
pub proof fn law_unloaded_parent_forks_nothing<C, E, T>(
    run: SpawnRun<C, E, T>,
    index: int,
    other: int,
    thread_id: Seq<char>,
)
    requires
        run.has(index),
        run.has(other),
        run.state(index) matches SpawnAgentStateView::FindingParent { parent_thread_id, .. }
            && parent_thread_id == thread_id,
        run.events[index] == (SpawnAgentEventView::<C, E, T>::ThreadLookedUp { found: false }),
    ensures
        run.action(index) == spawn_agent::refused::<C, E, T>(
            error::invalid_request_view("parent thread is not loaded: "@ + thread_id),
        ).1,
        !(run.action(other) is ForkChild),
{
    if other < index {
        lemma_rank_never_falls(run, other, index);
    } else if index < other {
        assert(run.state(index + 1) is Finished);
        lemma_rank_never_falls(run, index + 1, other);
    }
}

/// A turn is started only on a child that was forked before, with the prompt
/// of the request as its input, and after the connection that made the request
/// was subscribed to that child.
pub proof fn law_turn_starts_on_the_attached_child<C, E, T>(run: SpawnRun<C, E, T>, index: int)
    requires
        run.has(index),
        run.action(index) is StartTurn,
    ensures
        exists|forked: int, attached: int, child_thread_id: Seq<char>|
            0 <= forked < attached < index && #[trigger] run.forks_at(forked)
                && #[trigger] run.attaches_at(attached, child_thread_id) && #[trigger] run.starts_at(
                index,
                child_thread_id,
            ),
{
    lemma_inv(run, index);
    let child_thread_id = run.state(index)->AttachingListener_child_thread_id;
    assert(run.starts_at(index, child_thread_id));
}

/// A response names the child that was forked, and comes only after the
/// child's first turn was to be started and is reported started.
pub proof fn law_response_names_the_running_child<C, E, T>(run: SpawnRun<C, E, T>, index: int)
    requires
        run.has(index),
        run.action(index) matches SpawnAgentActionView::Finish(Ok(_)),
    ensures
        run.action(index) matches SpawnAgentActionView::Finish(Ok(response)) && exists|
            attached: int,
            started: int,
        |
            0 <= attached < started < index && #[trigger] run.attaches_at(
                attached,
                response.child_thread_id,
            ) && #[trigger] run.starts_at(started, response.child_thread_id),
        run.events[index] matches SpawnAgentEventView::TurnStarted(Ok(_)),
{
    lemma_inv(run, index);
    let child_thread_id = run.state(index)->StartingTurn_child_thread_id;
    let response = run.action(index)->Finish_0->Ok_0;
    assert(response.child_thread_id == child_thread_id);
    let (attached, started) = choose|attached: int, started: int|
        0 <= attached < started < index && #[trigger] run.attaches_at(attached, child_thread_id)
            && #[trigger] run.starts_at(started, child_thread_id);
    assert(run.attaches_at(attached, response.child_thread_id) && run.starts_at(
        started,
        response.child_thread_id,
    ));
}

/// At most one child is forked, it is subscribed to at most once, at most one
/// turn is started, and at most one answer is given.
pub proof fn law_nothing_is_done_twice<C, E, T>(run: SpawnRun<C, E, T>, first: int, second: int)
    requires
        run.has(first),
        run.has(second),
        first != second,
    ensures
        !(run.action(first) is ForkChild && run.action(second) is ForkChild),
        !(run.action(first) is AttachListener && run.action(second) is AttachListener),
        !(run.action(first) is StartTurn && run.action(second) is StartTurn),
        !(run.action(first) is Finish && run.action(second) is Finish),
{
    if run.action(first) is Finish && run.action(second) is Finish {
        if first < second {
            assert(run.state(first + 1) is Finished);
            lemma_rank_never_falls(run, first + 1, second);
        } else {
            assert(run.state(second + 1) is Finished);
            lemma_rank_never_falls(run, second + 1, first);
        }
    } else if !(run.action(first) is Nothing) && !(run.action(second) is Nothing) {
        if first < second {
            lemma_actions_climb(run, first, second);
        } else {
            lemma_actions_climb(run, second, first);
        }
    }
}

/// Once the request is answered nothing more is done for it.
pub proof fn law_answer_is_the_end<C, E, T>(run: SpawnRun<C, E, T>, answered: int, later: int)
    requires
        run.has(later),
        0 <= answered < later,
        run.action(answered) is Finish,
    ensures
        run.action(later) is Nothing,
{
    assert(run.state(answered + 1) is Finished);
    lemma_rank_never_falls(run, answered + 1, later);
}

/// Success is owed: when everything that is asked for is reported done, the
/// child is forked and the request is answered with its id.
pub proof fn law_child_of_a_loaded_parent_is_spawned<C, E, T>(
    run: SpawnRun<C, E, T>,
    parent_thread_id: Seq<char>,
    config: ThreadConfigView<C>,
    session_source: SessionSourceView,
    environments: E,
    trace: Option<T>,
    child_thread_id: Seq<char>,
)
    requires
        run.events == seq![
            SpawnAgentEventView::ThreadIdParsed(Ok(parent_thread_id)),
            SpawnAgentEventView::ThreadLookedUp { found: true },
            SpawnAgentEventView::ParentRead { config, session_source },
            SpawnAgentEventView::EnvironmentsSelected(environments),
            SpawnAgentEventView::TraceRead(trace),
            SpawnAgentEventView::ChildForked(Ok(child_thread_id)),
            SpawnAgentEventView::ListenerAttached,
            SpawnAgentEventView::TurnStarted(Ok(())),
        ],
    ensures
        run.forks_at(4),
        run.attaches_at(5, child_thread_id),
        run.starts_at(6, child_thread_id),
        run.action(7) == SpawnAgentActionView::<C, E, T>::Finish(
            Ok(CodexSpawnAgentResponseView { child_thread_id }),
        ),
{
    assert(run.state(0) is ParsingThreadId);
    assert(run.state(1) is FindingParent);
    assert(run.state(2) is ReadingParent);
    assert(run.state(3) is SelectingEnvironments);
    assert(run.state(4) is ReadingTrace);
    assert(run.state(5) is ForkingChild);
    assert(run.state(6) is AttachingListener);
    assert(run.state(7) is StartingTurn);
}

/// The source at the end of a chain of forks that begins below `ancestor`,
/// with the jobs along it and the parents' ids and configurations.
pub open spec fn descendant_source<C>(
    ancestor: SessionSourceView,
    chain: Seq<(SpawnJobView, Seq<char>, ThreadConfigView<C>)>,
) -> SessionSourceView
    decreases chain.len(),
{
    if chain.len() == 0 {
        ancestor
    } else {
        let (job, thread_id, config) = chain.last();
        let session_source = descendant_source(ancestor, chain.drop_last());
        spawn_agent::child_options::<C, (), ()>(
            job,
            ParentView { thread_id, config, session_source },
            (),
            None,
        ).session_source.unwrap()
    }
}

/// The depth of a child counts the forks between it and a thread that is no
/// fork, until the number no longer fits.
pub proof fn law_depth_counts_the_forks<C>(
    ancestor: SessionSourceView,
    chain: Seq<(SpawnJobView, Seq<char>, ThreadConfigView<C>)>,
)
    requires
        !(ancestor matches SessionSourceView::SubAgent(SubAgentSourceView::ThreadSpawn { .. })),
        chain.len() > 0,
    ensures
        descendant_source(ancestor, chain) matches SessionSourceView::SubAgent(
            SubAgentSourceView::ThreadSpawn { depth, .. },
        ) && depth == if chain.len() <= i32::MAX {
            chain.len() as int
        } else {
            i32::MAX as int
        },
    decreases chain.len(),
{
    if chain.len() > 1 {
        law_depth_counts_the_forks(ancestor, chain.drop_last());
    } else {
        assert(descendant_source(ancestor, chain.drop_last()) == ancestor);
    }
}

} // verus!
