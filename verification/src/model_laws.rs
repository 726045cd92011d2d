//! What a request gives, what is reported and what is asked for are modelled
//! whole: every model holds what the value holds, and nothing else.
use crate::apply_patch::{
    ApplyPatchAction, ApplyPatchActionView, ApplyPatchEvent, ApplyPatchEventView, ApprovalReply,
    ApprovalReplyView, FileChangeRequestApprovalParams, HunkFiles, WriteFailure,
};
use crate::error::JSONRPCErrorError;
use crate::history::{Turn, UserInput, UserInputView};
use crate::protocol::{
    CodexApplyPatchParams, CodexApplyPatchResponse, CodexGetHistoryParams, CodexGetHistoryResponse,
    CodexGetHistoryResponseView, CodexSpawnAgentParams, CodexSpawnAgentResponse, ConnectionId,
    ConnectionRequestId, RequestId, RequestIdView,
};
use crate::spawn_agent::{
    Client, SessionSource, SessionSourceView, SpawnAgentAction, SpawnAgentActionView,
    SpawnAgentEvent, SpawnAgentEventView, SpawnFailure, SpawnFailureView, StartThreadOptions,
    SubAgentSource, SubAgentSourceView, ThreadConfig, TurnStartParams,
};
use crate::stamp::ApprovalStamp;
use vstd::prelude::*;

verus! {

/// The parameters of a patch request.
pub proof fn law_patch_params_are_modelled_whole(params: CodexApplyPatchParams)
    ensures
        params@.thread_id == params.thread_id@,
        params@.patch == params.patch@,
        params@.cwd == params.cwd.deep_view(),
        params@.reason == params.reason.deep_view(),
{
}

/// The parameters of a history request.
pub proof fn law_history_params_are_modelled_whole(params: CodexGetHistoryParams)
    ensures
        params@.thread_id == params.thread_id@,
        params@.mode == params.mode.deep_view(),
{
}

/// The parameters of a request for a child agent.
pub proof fn law_spawn_params_are_modelled_whole(params: CodexSpawnAgentParams)
    ensures
        params@.parent_thread_id == params.parent_thread_id@,
        params@.prompt == params.prompt@,
        params@.agent_role == params.agent_role.deep_view(),
        params@.model == params.model.deep_view(),
{
}

/// The responses.
pub proof fn law_responses_are_modelled_whole<P>(
    patched: CodexApplyPatchResponse,
    spawned: CodexSpawnAgentResponse,
    turns: Vec<Turn<P>>,
    text: String,
)
    ensures
        patched@.applied == patched.applied,
        patched@.file_changes.len() == patched.file_changes@.len(),
        forall|i: int|
            0 <= i < patched.file_changes@.len() ==> #[trigger] patched@.file_changes[i]
                == patched.file_changes@[i]@,
        spawned@.child_thread_id == spawned.child_thread_id@,
        (CodexGetHistoryResponse::Full { turns })@ == (CodexGetHistoryResponseView::Full {
            turns: turns@,
        }),
        (CodexGetHistoryResponse::<P>::Compact { text })@ == (CodexGetHistoryResponseView::<
            P,
        >::Compact { text: text@ }),
{
}

/// An error.
pub proof fn law_errors_are_modelled_whole(error: JSONRPCErrorError)
    ensures
        error@.code == error.code,
        error@.message == error.message@,
        error@.data == error.data.deep_view(),
{
}

/// A request of a connection, and what is known of its client.
pub proof fn law_requesters_are_modelled_whole(
    request: ConnectionRequestId,
    name: String,
    number: i64,
    client: Client,
)
    ensures
        request@.connection_id == request.connection_id,
        request@.request_id == request.request_id@,
        RequestId::Text(name)@ == RequestIdView::Text(name@),
        RequestId::Integer(number)@ == RequestIdView::Integer(number),
        client@.name == client.name.deep_view(),
        client@.version == client.version.deep_view(),
        client@.supports_openai_form_elicitation == client.supports_openai_form_elicitation,
{
}

/// What became of an approval request, and why a patch could not be written.
pub proof fn law_replies_are_modelled_whole(
    decision: crate::apply_patch::FileChangeApprovalDecision,
    why: String,
    error: JSONRPCErrorError,
    failure: WriteFailure,
)
    ensures
        ApprovalReply::Decided(decision)@ == ApprovalReplyView::Decided(decision),
        ApprovalReply::Unreadable(why)@ == ApprovalReplyView::Unreadable(why@),
        ApprovalReply::Refused(error)@ == ApprovalReplyView::Refused(error@),
        ApprovalReply::Lost(why)@ == ApprovalReplyView::Lost(why@),
        failure@.error == failure.error@,
        failure@.stderr == failure.stderr@,
{
}

/// What is reported while a patch request is served.
pub proof fn law_patch_events_are_modelled_whole<F>(
    id: String,
    why: String,
    flag: bool,
    hunks: usize,
    files: Vec<HunkFiles>,
    stamp: ApprovalStamp,
    reply: ApprovalReply,
    opened: Option<F>,
    failure: WriteFailure,
)
    ensures
        ApplyPatchEvent::<F>::ThreadIdParsed(Ok(id))@ == ApplyPatchEventView::<F>::ThreadIdParsed(
            Ok(id@),
        ),
        ApplyPatchEvent::<F>::ThreadIdParsed(Err(why))@ == ApplyPatchEventView::<F>::ThreadIdParsed(
            Err(why@),
        ),
        (ApplyPatchEvent::<F>::ThreadLookedUp { found: flag })@ == (ApplyPatchEventView::<
            F,
        >::ThreadLookedUp { found: flag }),
        ApplyPatchEvent::<F>::PatchParsed(Ok(hunks))@ == ApplyPatchEventView::<F>::PatchParsed(
            Ok(hunks),
        ),
        ApplyPatchEvent::<F>::PatchParsed(Err(why))@ == ApplyPatchEventView::<F>::PatchParsed(
            Err(why@),
        ),
        ApplyPatchEvent::<F>::CwdResolved(Ok(id))@ == ApplyPatchEventView::<F>::CwdResolved(
            Ok(id@),
        ),
        ApplyPatchEvent::<F>::CwdResolved(Err(why))@ == ApplyPatchEventView::<F>::CwdResolved(
            Err(why@),
        ),
        (ApplyPatchEvent::<F>::PathsResolved { hunks: files, stamp })@ == (ApplyPatchEventView::<
            F,
        >::PathsResolved { hunks: files@.map_values(|hunk: HunkFiles| hunk@), stamp }),
        ApplyPatchEvent::<F>::ApprovalReplied(reply)@ == ApplyPatchEventView::<F>::ApprovalReplied(
            reply@,
        ),
        ApplyPatchEvent::<F>::FilesystemOpened(opened)@ == ApplyPatchEventView::<
            F,
        >::FilesystemOpened(opened),
        ApplyPatchEvent::<F>::PatchWritten(Ok(()))@ == ApplyPatchEventView::<F>::PatchWritten(
            Ok(()),
        ),
        ApplyPatchEvent::<F>::PatchWritten(Err(failure))@ == ApplyPatchEventView::<F>::PatchWritten(
            Err(failure@),
        ),
{
    assert(crate::apply_patch::hunk_views(files@) =~= files@.map_values(
        |hunk: HunkFiles| hunk@,
    ));
}

/// What the client is asked to approve.
pub proof fn law_approval_params_are_modelled_whole(params: FileChangeRequestApprovalParams)
    ensures
        params@.thread_id == params.thread_id@,
        params@.turn_id == params.turn_id@,
        params@.item_id == params.item_id@,
        params@.started_at_ms == params.started_at_ms,
        params@.reason == params.reason.deep_view(),
        params@.grant_root == params.grant_root.deep_view(),
{
}

/// What is asked of the server for a patch request.
pub proof fn law_patch_actions_are_modelled_whole<F>(
    id: String,
    location: String,
    connection_id: ConnectionId,
    params: FileChangeRequestApprovalParams,
    filesystem: F,
    sandbox: Option<String>,
    response: CodexApplyPatchResponse,
    error: JSONRPCErrorError,
)
    ensures
        (ApplyPatchAction::<F>::ParseThreadId { id })@ == (ApplyPatchActionView::<
            F,
        >::ParseThreadId { id: id@ }),
        (ApplyPatchAction::<F>::FindThread { thread_id: id })@ == (ApplyPatchActionView::<
            F,
        >::FindThread { thread_id: id@ }),
        (ApplyPatchAction::<F>::ParsePatch { patch: id })@ == (ApplyPatchActionView::<
            F,
        >::ParsePatch { patch: id@ }),
        (ApplyPatchAction::<F>::ResolveCwd { cwd: id })@ == (ApplyPatchActionView::<
            F,
        >::ResolveCwd { cwd: id@ }),
        (ApplyPatchAction::<F>::ResolveThreadCwd { thread_id: id })@ == (ApplyPatchActionView::<
            F,
        >::ResolveThreadCwd { thread_id: id@ }),
        (ApplyPatchAction::<F>::ResolvePaths { location })@ == (ApplyPatchActionView::<
            F,
        >::ResolvePaths { location: location@ }),
        (ApplyPatchAction::<F>::RequestApproval { connection_id, thread_id: id, params })@ == (
        ApplyPatchActionView::<F>::RequestApproval {
            connection_id,
            thread_id: id@,
            params: params@,
        }),
        ApplyPatchAction::<F>::OpenFilesystem@ == ApplyPatchActionView::<F>::OpenFilesystem,
        (ApplyPatchAction::<F>::WritePatch { patch: id, location, filesystem, sandbox })@ == (
        ApplyPatchActionView::<F>::WritePatch {
            patch: id@,
            location: location@,
            filesystem,
            sandbox: sandbox.deep_view(),
        }),
        ApplyPatchAction::<F>::Finish(Ok(response))@ == ApplyPatchActionView::<F>::Finish(
            Ok(response@),
        ),
        ApplyPatchAction::<F>::Finish(Err(error))@ == ApplyPatchActionView::<F>::Finish(
            Err(error@),
        ),
        ApplyPatchAction::<F>::Nothing@ == ApplyPatchActionView::<F>::Nothing,
{
}

/// Where a thread comes from.
pub proof fn law_sources_are_modelled_whole(
    parent_thread_id: String,
    depth: i32,
    agent_path: Option<String>,
    agent_nickname: Option<String>,
    agent_role: Option<String>,
)
    ensures
        SessionSource::SubAgent(
            SubAgentSource::ThreadSpawn {
                parent_thread_id,
                depth,
                agent_path,
                agent_nickname,
                agent_role,
            },
        )@ == SessionSourceView::SubAgent(
            SubAgentSourceView::ThreadSpawn {
                parent_thread_id: parent_thread_id@,
                depth,
                agent_path: agent_path.deep_view(),
                agent_nickname: agent_nickname.deep_view(),
                agent_role: agent_role.deep_view(),
            },
        ),
        SessionSource::SubAgent(SubAgentSource::Other)@ == SessionSourceView::SubAgent(
            SubAgentSourceView::Other,
        ),
        SessionSource::Other@ == SessionSourceView::Other,
{
}

/// The configuration of a thread.
pub proof fn law_configurations_are_modelled_whole<C>(config: ThreadConfig<C>)
    ensures
        config@.model == config.model.deep_view(),
        config@.cwd == config.cwd@,
        config@.workspace_roots.len() == config.workspace_roots@.len(),
        forall|i: int|
            0 <= i < config.workspace_roots@.len() ==> #[trigger] config@.workspace_roots[i]
                == config.workspace_roots@[i]@,
        config@.rest == config.rest,
{
}

/// How a child thread is to be started.
pub proof fn law_start_options_are_modelled_whole<C, E, T>(options: StartThreadOptions<C, E, T>)
    ensures
        options@.config == options.config@,
        options@.allow_provider_model_fallback == options.allow_provider_model_fallback,
        options@.initial_history == options.initial_history,
        options@.history_mode == options.history_mode.deep_view(),
        options.session_source is Some <==> options@.session_source is Some,
        options.session_source matches Some(source) ==> options@.session_source == Some(source@),
        options@.thread_source == options.thread_source,
        options@.dynamic_tools.len() == options.dynamic_tools@.len(),
        options@.metrics_service_name == options.metrics_service_name.deep_view(),
        options@.parent_trace == options.parent_trace,
        options@.environments == options.environments,
        options@.thread_extension_init == options.thread_extension_init,
        options@.supports_openai_form_elicitation == options.supports_openai_form_elicitation,
{
}

/// What the user sent, and a turn to be started with it.
pub proof fn law_turns_are_modelled_whole(
    params: TurnStartParams,
    text: String,
    text_elements: Vec<String>,
)
    ensures
        params@.thread_id == params.thread_id@,
        params@.settings == params.settings,
        params@.input.len() == params.input@.len(),
        forall|i: int|
            0 <= i < params.input@.len() ==> #[trigger] params@.input[i] == params.input@[i]@,
        (UserInput::Text { text, text_elements })@ matches UserInputView::Text {
            text: shown,
            text_elements: elements,
        } && shown == text@ && elements.len() == text_elements@.len() && forall|i: int|
            0 <= i < elements.len() ==> #[trigger] elements[i] == text_elements@[i]@,
        UserInput::Other@ == UserInputView::Other,
{
}

/// What is reported while a request for a child agent is served.
pub proof fn law_spawn_events_are_modelled_whole<C, E, T>(
    id: String,
    why: String,
    flag: bool,
    config: ThreadConfig<C>,
    session_source: SessionSource,
    environments: E,
    trace: Option<T>,
    error: JSONRPCErrorError,
)
    ensures
        SpawnAgentEvent::<C, E, T>::ThreadIdParsed(Ok(id))@ == SpawnAgentEventView::<
            C,
            E,
            T,
        >::ThreadIdParsed(Ok(id@)),
        SpawnAgentEvent::<C, E, T>::ThreadIdParsed(Err(why))@ == SpawnAgentEventView::<
            C,
            E,
            T,
        >::ThreadIdParsed(Err(why@)),
        (SpawnAgentEvent::<C, E, T>::ThreadLookedUp { found: flag })@ == (SpawnAgentEventView::<
            C,
            E,
            T,
        >::ThreadLookedUp { found: flag }),
        (SpawnAgentEvent::<C, E, T>::ParentRead { config, session_source })@ == (
        SpawnAgentEventView::<C, E, T>::ParentRead {
            config: config@,
            session_source: session_source@,
        }),
        SpawnAgentEvent::<C, E, T>::EnvironmentsSelected(environments)@ == SpawnAgentEventView::<
            C,
            E,
            T,
        >::EnvironmentsSelected(environments),
        SpawnAgentEvent::<C, E, T>::TraceRead(trace)@ == SpawnAgentEventView::<C, E, T>::TraceRead(
            trace,
        ),
        SpawnAgentEvent::<C, E, T>::ChildForked(Ok(id))@ == SpawnAgentEventView::<
            C,
            E,
            T,
        >::ChildForked(Ok(id@)),
        SpawnAgentEvent::<C, E, T>::ChildForked(Err(SpawnFailure::InvalidRequest(why)))@
            == SpawnAgentEventView::<C, E, T>::ChildForked(
            Err(SpawnFailureView::InvalidRequest(why@)),
        ),
        SpawnAgentEvent::<C, E, T>::ChildForked(Err(SpawnFailure::Other(why)))@
            == SpawnAgentEventView::<C, E, T>::ChildForked(Err(SpawnFailureView::Other(why@))),
        SpawnAgentEvent::<C, E, T>::ListenerAttached@ == SpawnAgentEventView::<
            C,
            E,
            T,
        >::ListenerAttached,
        SpawnAgentEvent::<C, E, T>::TurnStarted(Ok(()))@ == SpawnAgentEventView::<
            C,
            E,
            T,
        >::TurnStarted(Ok(())),
        SpawnAgentEvent::<C, E, T>::TurnStarted(Err(error))@ == SpawnAgentEventView::<
            C,
            E,
            T,
        >::TurnStarted(Err(error@)),
{
}

/// What is asked of the server for a child agent.
pub proof fn law_spawn_actions_are_modelled_whole<C, E, T>(
    id: String,
    workspace_roots: Vec<String>,
    request_id: ConnectionRequestId,
    options: StartThreadOptions<C, E, T>,
    connections: Vec<ConnectionId>,
    params: TurnStartParams,
    client: Client,
    response: CodexSpawnAgentResponse,
    error: JSONRPCErrorError,
)
    ensures
        (SpawnAgentAction::<C, E, T>::ParseThreadId { id })@ == (SpawnAgentActionView::<
            C,
            E,
            T,
        >::ParseThreadId { id: id@ }),
        (SpawnAgentAction::<C, E, T>::FindThread { thread_id: id })@ == (SpawnAgentActionView::<
            C,
            E,
            T,
        >::FindThread { thread_id: id@ }),
        (SpawnAgentAction::<C, E, T>::ReadParent { thread_id: id })@ == (SpawnAgentActionView::<
            C,
            E,
            T,
        >::ReadParent { thread_id: id@ }),
        (SpawnAgentAction::<C, E, T>::SelectEnvironments { cwd: id, workspace_roots })@ == (
        SpawnAgentActionView::<C, E, T>::SelectEnvironments {
            cwd: id@,
            workspace_roots: workspace_roots@.map_values(|root: String| root@),
        }),
        (SpawnAgentAction::<C, E, T>::ReadTrace { request_id })@ == (SpawnAgentActionView::<
            C,
            E,
            T,
        >::ReadTrace { request_id: request_id@ }),
        (SpawnAgentAction::<C, E, T>::ForkChild { parent_thread_id: id, options })@ == (
        SpawnAgentActionView::<C, E, T>::ForkChild {
            parent_thread_id: id@,
            options: options@,
        }),
        (SpawnAgentAction::<C, E, T>::AttachListener { thread_id: id, connections })@ == (
        SpawnAgentActionView::<C, E, T>::AttachListener {
            thread_id: id@,
            connections: connections@,
        }),
        (SpawnAgentAction::<C, E, T>::StartTurn { request_id, params, client })@ == (
        SpawnAgentActionView::<C, E, T>::StartTurn {
            request_id: request_id@,
            params: params@,
            client: client@,
        }),
        SpawnAgentAction::<C, E, T>::Finish(Ok(response))@ == SpawnAgentActionView::<
            C,
            E,
            T,
        >::Finish(Ok(response@)),
        SpawnAgentAction::<C, E, T>::Finish(Err(error))@ == SpawnAgentActionView::<
            C,
            E,
            T,
        >::Finish(Err(error@)),
        SpawnAgentAction::<C, E, T>::Nothing@ == SpawnAgentActionView::<C, E, T>::Nothing,
{
    assert(crate::text::texts(workspace_roots@) =~= workspace_roots@.map_values(
        |root: String| root@,
    ));
}

} // verus!
