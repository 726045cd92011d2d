//! Parameters and responses of the `codex/*` requests.
use crate::history::Turn;
use vstd::prelude::*;

verus! {

/// A client connection of the server.
#[derive(Clone, Copy, Debug, PartialEq, Eq)]
pub struct ConnectionId(pub u64);

/// The id that a client gave a request.
#[derive(Debug, PartialEq, Eq)]
pub enum RequestId {
    Text(String),
    Integer(i64),
}

/// The mathematical model of [`RequestId`].
pub enum RequestIdView {
    Text(Seq<char>),
    Integer(i64),
}

impl View for RequestId {
    type V = RequestIdView;

    open spec fn view(&self) -> RequestIdView {
        match self {
            RequestId::Text(name) => RequestIdView::Text(name@),
            RequestId::Integer(number) => RequestIdView::Integer(*number),
        }
    }
}

impl Clone for RequestId {
    fn clone(&self) -> (copy: RequestId)
        ensures
            copy@ == self@,
    {
        match self {
            RequestId::Text(name) => RequestId::Text(name.clone()),
            RequestId::Integer(number) => RequestId::Integer(*number),
        }
    }
}

/// A request of a connection.
#[derive(Debug, PartialEq, Eq)]
pub struct ConnectionRequestId {
    pub connection_id: ConnectionId,
    pub request_id: RequestId,
}

/// The mathematical model of [`ConnectionRequestId`].
pub struct ConnectionRequestIdView {
    pub connection_id: ConnectionId,
    pub request_id: RequestIdView,
}

impl View for ConnectionRequestId {
    type V = ConnectionRequestIdView;

    open spec fn view(&self) -> ConnectionRequestIdView {
        ConnectionRequestIdView {
            connection_id: self.connection_id,
            request_id: self.request_id@,
        }
    }
}

impl Clone for ConnectionRequestId {
    fn clone(&self) -> (copy: ConnectionRequestId)
        ensures
            copy@ == self@,
    {
        ConnectionRequestId {
            connection_id: self.connection_id,
            request_id: self.request_id.clone(),
        }
    }
}

/// Apply a patch to an existing thread's workspace through the native
/// file-change approval chain.
#[derive(Clone, Debug, PartialEq, Eq)]
pub struct CodexApplyPatchParams {
    /// Thread the patch is associated with. The thread must exist; the
    /// file-change approval request references this thread.
    pub thread_id: String,
    /// Patch payload in the Codex `apply_patch` grammar
    /// (`*** Begin Patch` ... `*** End Patch`).
    pub patch: String,
    /// Working directory used to resolve relative patch paths. Defaults to the
    /// thread's configured cwd.
    pub cwd: Option<String>,
    /// Optional explanatory reason surfaced in the approval request.
    pub reason: Option<String>,
}

/// The mathematical model of [`CodexApplyPatchParams`].
pub struct CodexApplyPatchParamsView {
    pub thread_id: Seq<char>,
    pub patch: Seq<char>,
    pub cwd: Option<Seq<char>>,
    pub reason: Option<Seq<char>>,
}

impl View for CodexApplyPatchParams {
    type V = CodexApplyPatchParamsView;

    open spec fn view(&self) -> CodexApplyPatchParamsView {
        CodexApplyPatchParamsView {
            thread_id: self.thread_id@,
            patch: self.patch@,
            cwd: self.cwd.deep_view(),
            reason: self.reason.deep_view(),
        }
    }
}

/// Result of `codex/applyPatch`.
#[derive(Clone, Debug, PartialEq, Eq)]
pub struct CodexApplyPatchResponse {
    /// Whether the patch was approved and written to disk. `false` when the
    /// file-change approval request was declined or cancelled.
    pub applied: bool,
    /// Native paths of the files touched by the patch.
    pub file_changes: Vec<String>,
}

/// The mathematical model of [`CodexApplyPatchResponse`].
pub struct CodexApplyPatchResponseView {
    pub applied: bool,
    pub file_changes: Seq<Seq<char>>,
}

impl View for CodexApplyPatchResponse {
    type V = CodexApplyPatchResponseView;

    open spec fn view(&self) -> CodexApplyPatchResponseView {
        CodexApplyPatchResponseView {
            applied: self.applied,
            file_changes: crate::text::texts(self.file_changes@),
        }
    }
}

/// Read a thread's history in either structured or projected plain-text form.
#[derive(Clone, Debug, PartialEq, Eq)]
pub struct CodexGetHistoryParams {
    /// Thread to read.
    pub thread_id: String,
    /// `"full"` returns structured turns; `"compact"` returns a plain-text
    /// projection of the same projected history. Defaults to `"compact"`.
    pub mode: Option<String>,
}

/// The mathematical model of [`CodexGetHistoryParams`].
pub struct CodexGetHistoryParamsView {
    pub thread_id: Seq<char>,
    pub mode: Option<Seq<char>>,
}

impl View for CodexGetHistoryParams {
    type V = CodexGetHistoryParamsView;

    open spec fn view(&self) -> CodexGetHistoryParamsView {
        CodexGetHistoryParamsView { thread_id: self.thread_id@, mode: self.mode.deep_view() }
    }
}

/// Result of `codex/getHistory`, by the requested mode.
#[derive(Clone, Debug, PartialEq)]
pub enum CodexGetHistoryResponse<P> {
    /// The structured turns.
    Full { turns: Vec<Turn<P>> },
    /// The turns as plain text.
    Compact { text: String },
}

/// The mathematical model of [`CodexGetHistoryResponse`].
pub enum CodexGetHistoryResponseView<P> {
    Full { turns: Seq<Turn<P>> },
    Compact { text: Seq<char> },
}

impl<P> View for CodexGetHistoryResponse<P> {
    type V = CodexGetHistoryResponseView<P>;

    open spec fn view(&self) -> CodexGetHistoryResponseView<P> {
        match self {
            CodexGetHistoryResponse::Full { turns } => CodexGetHistoryResponseView::Full {
                turns: turns@,
            },
            CodexGetHistoryResponse::Compact { text } => CodexGetHistoryResponseView::Compact {
                text: text@,
            },
        }
    }
}

/// Fork a child thread from an existing parent thread and start its first
/// turn with the supplied prompt.
#[derive(Clone, Debug, PartialEq, Eq)]
pub struct CodexSpawnAgentParams {
    /// Parent thread to fork from.
    pub parent_thread_id: String,
    /// Initial task given to the child thread.
    pub prompt: String,
    /// Optional role recorded in the child thread's metadata.
    pub agent_role: Option<String>,
    /// Optional model override for the child thread.
    pub model: Option<String>,
}

/// The mathematical model of [`CodexSpawnAgentParams`].
pub struct CodexSpawnAgentParamsView {
    pub parent_thread_id: Seq<char>,
    pub prompt: Seq<char>,
    pub agent_role: Option<Seq<char>>,
    pub model: Option<Seq<char>>,
}

impl View for CodexSpawnAgentParams {
    type V = CodexSpawnAgentParamsView;

    open spec fn view(&self) -> CodexSpawnAgentParamsView {
        CodexSpawnAgentParamsView {
            parent_thread_id: self.parent_thread_id@,
            prompt: self.prompt@,
            agent_role: self.agent_role.deep_view(),
            model: self.model.deep_view(),
        }
    }
}

/// Result of `codex/spawnAgent`.
#[derive(Clone, Debug, PartialEq, Eq)]
pub struct CodexSpawnAgentResponse {
    /// Id of the forked child thread.
    pub child_thread_id: String,
}

/// The mathematical model of [`CodexSpawnAgentResponse`].
pub struct CodexSpawnAgentResponseView {
    pub child_thread_id: Seq<char>,
}

impl View for CodexSpawnAgentResponse {
    type V = CodexSpawnAgentResponseView;

    open spec fn view(&self) -> CodexSpawnAgentResponseView {
        CodexSpawnAgentResponseView { child_thread_id: self.child_thread_id@ }
    }
}

} // verus!
