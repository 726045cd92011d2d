//! What every call of the library's entry points gives back, said of the values
//! that go in and come out.
use crate::apply_patch;
use crate::apply_patch::{
    ApplyPatchAction, ApplyPatchEvent, ApplyPatchState, FileChangeApprovalDecision, HunkFiles,
};
use crate::clock;
use crate::error::JSONRPCErrorError;
use crate::history;
use crate::history::{PendingHistory, ThreadReadParams, Turn};
use crate::protocol::{
    CodexApplyPatchParams, CodexGetHistoryParams, CodexGetHistoryResponse, CodexSpawnAgentParams,
    ConnectionId, ConnectionRequestId,
};
use crate::spawn_agent;
use crate::spawn_agent::{ClientView, SpawnAgentAction, SpawnAgentEvent, SpawnAgentState};
use vstd::prelude::*;

verus! {

/// Opening a history request keeps the mode that it names, or else takes the
/// compact one, and asks for the turns of the thread that it names.
pub proof fn law_opened_history_reads_the_named_thread(
    params: CodexGetHistoryParams,
    opened: (PendingHistory, ThreadReadParams),
)
    requires
        call_ensures(history::get_history, (params,), opened),
    ensures
        params.mode matches Some(mode) ==> opened.0.mode@ == mode@,
        params.mode is None ==> opened.0.mode@ == "compact"@,
        opened.1.thread_id@ == params.thread_id@,
        opened.1.include_turns,
{
}

/// Closing a history request passes a failed read on; it gives back the very
/// turns that were read in the full mode, their text in the compact one, and in
/// any other an error that quotes the mode.
pub proof fn law_closed_history_shows_what_was_read<P>(
    pending: PendingHistory,
    read: Result<Vec<Turn<P>>, JSONRPCErrorError>,
    outcome: Result<CodexGetHistoryResponse<P>, JSONRPCErrorError>,
)
    requires
        call_ensures(PendingHistory::thread_read::<P>, (pending, read), outcome),
    ensures
        read matches Err(failure) ==> outcome matches Err(passed) && passed.code == failure.code
            && passed.message@ == failure.message@ && passed.data.deep_view()
            == failure.data.deep_view(),
        read matches Ok(turns) ==> {
            &&& pending.mode@ == "full"@ ==> (outcome matches Ok(
                CodexGetHistoryResponse::Full { turns: shown },
            ) && shown@ == turns@)
            &&& pending.mode@ == "compact"@ ==> (outcome matches Ok(
                CodexGetHistoryResponse::Compact { text },
            ) && text@ == history::history_text(turns@))
            &&& pending.mode@ != "full"@ && pending.mode@ != "compact"@ ==> (outcome matches Err(
                refusal,
            ) && refusal.code == -32600 && refusal.message@ == "invalid mode: "@ + pending.mode@
                + " (expected \"full\" or \"compact\")"@ && refusal.data is None)
        },
{
    reveal_strlit("full");
    reveal_strlit("compact");
    assert("full"@.len() != "compact"@.len());
}

/// Opening a patch request has the thread id parsed that it gives, and goes on
/// from where the request stands at its beginning.
pub proof fn law_opened_patch_request_parses_its_thread_id<F>(
    connection_id: ConnectionId,
    params: CodexApplyPatchParams,
    opened: (ApplyPatchState, ApplyPatchAction<F>),
)
    requires
        call_ensures(apply_patch::apply_patch::<F>, (connection_id, params), opened),
    ensures
        opened.1 matches ApplyPatchAction::ParseThreadId { id } && id@ == params.thread_id@,
        opened.0@ == apply_patch::opening::<F>(connection_id, params@).0,
{
}

/// Every step of a patch request goes the way that the runs of it go.
pub proof fn law_patch_step_goes_the_way_of_the_runs<F>(
    state: ApplyPatchState,
    event: ApplyPatchEvent<F>,
    next: (ApplyPatchState, ApplyPatchAction<F>),
)
    requires
        call_ensures(ApplyPatchState::step::<F>, (state, event), next),
    ensures
        next.0@ == apply_patch::transition(state@, event@).0,
        next.1@ == apply_patch::transition(state@, event@).1,
{
}

/// Resolved paths are reported as they are, with a random UUID and a reading of
/// the clock.
pub proof fn law_resolved_paths_are_reported_as_they_are<F>(
    hunks: Vec<HunkFiles>,
    event: ApplyPatchEvent<F>,
)
    requires
        call_ensures(ApplyPatchEvent::<F>::paths_resolved, (hunks,), event),
    ensures
        event matches ApplyPatchEvent::PathsResolved { hunks: reported, stamp } && {
            &&& reported@ == hunks@
            &&& stamp.uuid as int / 0x1000_0000_0000_0000_0000 % 16 == 4
            &&& stamp.uuid as int / 0x1000_0000_0000_0000 % 16 / 4 == 2
            &&& exists|time: std::time::SystemTime|
                stamp.started_at_ms == clock::timestamp_ms(
                    #[trigger] clock::millis_since_epoch(time),
                )
        },
{
    if let ApplyPatchEvent::PathsResolved { stamp, .. } = event {
        crate::stamp::law_random_uuid_shows_version_and_variant(stamp.uuid);
    }
}

/// A decision is taken for an approval exactly if it is one of the two that
/// accept.
pub proof fn law_approval_is_told_from_refusal(decision: FileChangeApprovalDecision, approved: bool)
    requires
        call_ensures(FileChangeApprovalDecision::is_approval, (decision,), approved),
    ensures
        approved <==> decision == FileChangeApprovalDecision::Accept || decision
            == FileChangeApprovalDecision::AcceptForSession,
{
}

/// Opening a request for a child agent has the parent's id parsed that it gives,
/// and goes on from where the request stands at its beginning.
pub proof fn law_opened_spawn_request_parses_its_parent_id<C, E, T>(
    request_id: ConnectionRequestId,
    params: CodexSpawnAgentParams,
    name: Option<String>,
    version: Option<String>,
    supports_openai_form_elicitation: bool,
    opened: (SpawnAgentState<C, E>, SpawnAgentAction<C, E, T>),
)
    requires
        call_ensures(
            spawn_agent::spawn_agent::<C, E, T>,
            (request_id, params, name, version, supports_openai_form_elicitation),
            opened,
        ),
    ensures
        opened.1 matches SpawnAgentAction::ParseThreadId { id } && id@ == params.parent_thread_id@,
        opened.0@ == spawn_agent::opening::<C, E, T>(
            request_id@,
            params@,
            ClientView {
                name: name.deep_view(),
                version: version.deep_view(),
                supports_openai_form_elicitation,
            },
        ).0,
{
}

/// Every step of a request for a child agent goes the way that the runs of it
/// go.
pub proof fn law_spawn_step_goes_the_way_of_the_runs<C, E, T>(
    state: SpawnAgentState<C, E>,
    event: SpawnAgentEvent<C, E, T>,
    next: (SpawnAgentState<C, E>, SpawnAgentAction<C, E, T>),
)
    requires
        call_ensures(SpawnAgentState::<C, E>::step::<T>, (state, event), next),
    ensures
        next.0@ == spawn_agent::transition(state@, event@).0,
        next.1@ == spawn_agent::transition(state@, event@).1,
{
}

} // verus!
