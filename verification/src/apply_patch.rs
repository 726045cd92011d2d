//! Applying a patch to a thread's workspace.
//!
//! The patch only lands on disk after the client has approved a file-change
//! request, as it does for a patch that is applied within a turn. The filesystem
//! `F` that the server opens is handed back to it unread.
use crate::error;
use crate::error::{JSONRPCErrorError, JSONRPCErrorErrorView};
use crate::output;
use crate::protocol::{
    CodexApplyPatchParams, CodexApplyPatchParamsView, CodexApplyPatchResponse,
    CodexApplyPatchResponseView, ConnectionId,
};
use crate::stamp;
use crate::stamp::ApprovalStamp;
use crate::text;
use vstd::prelude::*;

verus! {

/// What the client decided on a file change.
#[derive(Clone, Copy, Debug, PartialEq, Eq)]
pub enum FileChangeApprovalDecision {
    Accept,
    AcceptForSession,
    Decline,
    Cancel,
}

/// Whether a decision lets the change happen.
pub open spec fn accepts(decision: FileChangeApprovalDecision) -> bool {
    decision is Accept || decision is AcceptForSession
}

impl FileChangeApprovalDecision {
    /// Whether the decision lets the change happen.
    pub fn is_approval(self) -> (approved: bool)
        ensures
            approved == accepts(self),
    {
        matches!(self, FileChangeApprovalDecision::Accept | FileChangeApprovalDecision::AcceptForSession)
    }
}

/// What became of an approval request.
#[derive(Clone, Debug, PartialEq, Eq)]
pub enum ApprovalReply {
    /// The client decided.
    Decided(FileChangeApprovalDecision),
    /// The client answered with something that holds no decision; with the
    /// reason why it cannot be read.
    Unreadable(String),
    /// The client answered with an error.
    Refused(JSONRPCErrorError),
    /// No answer will come; with the reason.
    Lost(String),
}

/// The mathematical model of [`ApprovalReply`].
pub enum ApprovalReplyView {
    Decided(FileChangeApprovalDecision),
    Unreadable(Seq<char>),
    Refused(JSONRPCErrorErrorView),
    Lost(Seq<char>),
}

impl View for ApprovalReply {
    type V = ApprovalReplyView;

    open spec fn view(&self) -> ApprovalReplyView {
        match self {
            ApprovalReply::Decided(decision) => ApprovalReplyView::Decided(*decision),
            ApprovalReply::Unreadable(reason) => ApprovalReplyView::Unreadable(reason@),
            ApprovalReply::Refused(failure) => ApprovalReplyView::Refused(failure@),
            ApprovalReply::Lost(reason) => ApprovalReplyView::Lost(reason@),
        }
    }
}

/// A path in the patch.
#[derive(Clone, Debug, PartialEq, Eq)]
pub struct HunkPath {
    /// The path as the patch has it.
    pub path: String,
    /// The native path that it stands for in the working directory, if it
    /// could be resolved.
    pub resolved: Option<String>,
}

/// The mathematical model of [`HunkPath`].
pub struct HunkPathView {
    pub path: Seq<char>,
    pub resolved: Option<Seq<char>>,
}

impl View for HunkPath {
    type V = HunkPathView;

    open spec fn view(&self) -> HunkPathView {
        HunkPathView { path: self.path@, resolved: self.resolved.deep_view() }
    }
}

/// The files that a hunk of the patch touches.
#[derive(Clone, Debug, PartialEq, Eq)]
pub struct HunkFiles {
    /// The file that the hunk adds, deletes or updates.
    pub file: HunkPath,
    /// Where the hunk moves that file, if it does.
    pub moved_to: Option<HunkPath>,
}

/// The mathematical model of [`HunkFiles`].
pub struct HunkFilesView {
    pub file: HunkPathView,
    pub moved_to: Option<HunkPathView>,
}

impl View for HunkFiles {
    type V = HunkFilesView;

    open spec fn view(&self) -> HunkFilesView {
        HunkFilesView {
            file: self.file@,
            moved_to: match self.moved_to {
                Some(path) => Some(path@),
                None => None,
            },
        }
    }
}

/// The models of a list of hunks.
pub open spec fn hunk_views(hunks: Seq<HunkFiles>) -> Seq<HunkFilesView> {
    hunks.map_values(|hunk: HunkFiles| hunk@)
}

/// The path under which a touched file is reported: the native one, or the one
/// in the patch where that could not be resolved.
pub open spec fn reported_path(path: HunkPathView) -> Seq<char> {
    match path.resolved {
        Some(native) => native,
        None => path.path,
    }
}

/// The files that a hunk touches: a hunk that moves its file touches both the
/// place it leaves and the place it goes to.
pub open spec fn hunk_touches(hunk: HunkFilesView) -> Seq<Seq<char>> {
    match hunk.moved_to {
        Some(destination) => seq![reported_path(hunk.file), reported_path(destination)],
        None => seq![reported_path(hunk.file)],
    }
}

/// The files that a patch touches: those of all its hunks, in order.
pub open spec fn touched_files(hunks: Seq<HunkFilesView>) -> Seq<Seq<char>>
    decreases hunks.len(),
{
    if hunks.len() == 0 {
        Seq::empty()
    } else {
        touched_files(hunks.drop_last()) + hunk_touches(hunks.last())
    }
}

/// A patch is listed with at least one file for each hunk.
pub proof fn law_every_hunk_touches_a_file(hunks: Seq<HunkFilesView>)
    ensures
        touched_files(hunks).len() >= hunks.len(),
    decreases hunks.len(),
{
    if hunks.len() > 0 {
        law_every_hunk_touches_a_file(hunks.drop_last());
    }
}

/// A path is listed exactly if some hunk touches it: as its file, or as where
/// it moves that file.
pub proof fn law_touched_files_are_those_of_the_hunks(hunks: Seq<HunkFilesView>, path: Seq<char>)
    ensures
        touched_files(hunks).contains(path) <==> exists|i: int|
            0 <= i < hunks.len() && hunk_touches(#[trigger] hunks[i]).contains(path),
    decreases hunks.len(),
{
    if hunks.len() > 0 {
        let rest = hunks.drop_last();
        let last = hunks.len() - 1;
        let earlier = touched_files(rest);
        let own = hunk_touches(hunks[last]);
        law_touched_files_are_those_of_the_hunks(rest, path);
        if touched_files(hunks).contains(path) {
            let k = choose|k: int|
                0 <= k < touched_files(hunks).len() && touched_files(hunks)[k] == path;
            if k < earlier.len() {
                assert(earlier[k] == path);
                let i = choose|i: int|
                    0 <= i < rest.len() && hunk_touches(#[trigger] rest[i]).contains(path);
                assert(hunks[i] == rest[i]);
            } else {
                assert(own[k - earlier.len()] == path);
                assert(hunk_touches(hunks[last]).contains(path));
            }
        }
        if exists|i: int| 0 <= i < hunks.len() && hunk_touches(#[trigger] hunks[i]).contains(path) {
            let i = choose|i: int|
                0 <= i < hunks.len() && hunk_touches(#[trigger] hunks[i]).contains(path);
            if i < last {
                assert(rest[i] == hunks[i]);
                let k = choose|k: int| 0 <= k < earlier.len() && earlier[k] == path;
                assert(touched_files(hunks)[k] == path);
            } else {
                let k = choose|k: int| 0 <= k < own.len() && own[k] == path;
                assert(touched_files(hunks)[earlier.len() + k] == path);
            }
        }
    }
}

/// The files that a patch touches: those of all its hunks, in order.
pub fn list_touched_files(hunks: Vec<HunkFiles>) -> (files: Vec<String>)
    ensures
        text::texts(files@) == touched_files(hunk_views(hunks@)),
{
    let mut files: Vec<String> = Vec::new();
    let mut i: usize = 0;
    assert(text::texts(files@) =~= touched_files(hunk_views(hunks@).take(0)));
    while i < hunks.len()
        invariant
            i <= hunks.len(),
            text::texts(files@) == touched_files(hunk_views(hunks@).take(i as int)),
        decreases hunks.len() - i,
    {
        let ghost before = files@;
        let ghost hunk = hunks@[i as int]@;
        files.push(report_path(&hunks[i].file));
        assert(text::texts(files@) =~= text::texts(before).push(reported_path(hunk.file)));
        if let Some(destination) = &hunks[i].moved_to {
            let ghost before_move = files@;
            files.push(report_path(destination));
            assert(text::texts(files@) =~= text::texts(before_move).push(
                reported_path(destination@),
            ));
        }
        proof {
            let next = hunk_views(hunks@).take(i + 1);
            assert(next.drop_last() =~= hunk_views(hunks@).take(i as int));
            assert(next.last() == hunk);
            assert(text::texts(files@) =~= text::texts(before) + hunk_touches(hunk));
        }
        i = i + 1;
    }
    assert(hunk_views(hunks@).take(hunks@.len() as int) =~= hunk_views(hunks@));
    files
}

/// The path under which a touched file is reported.
fn report_path(path: &HunkPath) -> (reported: String)
    ensures
        reported@ == reported_path(path@),
{
    match &path.resolved {
        Some(native) => native.clone(),
        None => path.path.clone(),
    }
}

/// What the client is asked to approve.
#[derive(Clone, Debug, PartialEq, Eq)]
pub struct FileChangeRequestApprovalParams {
    pub thread_id: String,
    /// The turn in progress; empty for a standalone patch.
    pub turn_id: String,
    pub item_id: String,
    /// When the change was proposed, in Unix milliseconds.
    pub started_at_ms: i64,
    /// Why the change is proposed.
    pub reason: Option<String>,
    /// Directory for which further access is asked for.
    pub grant_root: Option<String>,
}

/// The mathematical model of [`FileChangeRequestApprovalParams`].
pub struct FileChangeRequestApprovalParamsView {
    pub thread_id: Seq<char>,
    pub turn_id: Seq<char>,
    pub item_id: Seq<char>,
    pub started_at_ms: i64,
    pub reason: Option<Seq<char>>,
    pub grant_root: Option<Seq<char>>,
}

impl View for FileChangeRequestApprovalParams {
    type V = FileChangeRequestApprovalParamsView;

    open spec fn view(&self) -> FileChangeRequestApprovalParamsView {
        FileChangeRequestApprovalParamsView {
            thread_id: self.thread_id@,
            turn_id: self.turn_id@,
            item_id: self.item_id@,
            started_at_ms: self.started_at_ms,
            reason: self.reason.deep_view(),
            grant_root: self.grant_root.deep_view(),
        }
    }
}

/// Why a patch could not be written.
#[derive(Clone, Debug, PartialEq, Eq)]
pub struct WriteFailure {
    /// The error in words.
    pub error: String,
    /// What was written to the error stream.
    pub stderr: Vec<u8>,
}

/// The mathematical model of [`WriteFailure`].
pub struct WriteFailureView {
    pub error: Seq<char>,
    pub stderr: Seq<u8>,
}

impl View for WriteFailure {
    type V = WriteFailureView;

    open spec fn view(&self) -> WriteFailureView {
        WriteFailureView { error: self.error@, stderr: self.stderr@ }
    }
}

/// Something that the server reports while it serves the request.
#[derive(Debug, PartialEq, Eq)]
pub enum ApplyPatchEvent<F> {
    /// The thread id was parsed: it, or why it is none.
    ThreadIdParsed(Result<String, String>),
    /// The thread was looked up.
    ThreadLookedUp { found: bool },
    /// The patch was parsed: how many hunks it has, or why it is none.
    PatchParsed(Result<usize, String>),
    /// The working directory was resolved: its location, or why it has none.
    CwdResolved(Result<String, String>),
    /// The paths of the hunks were resolved, and a stamp drawn for the
    /// approval request.
    PathsResolved { hunks: Vec<HunkFiles>, stamp: ApprovalStamp },
    /// The approval request came to its end.
    ApprovalReplied(ApprovalReply),
    /// The local filesystem was asked for: it, if one is configured.
    FilesystemOpened(Option<F>),
    /// The patch was written, or why it could not be.
    PatchWritten(Result<(), WriteFailure>),
}

/// The mathematical model of [`ApplyPatchEvent`].
pub enum ApplyPatchEventView<F> {
    ThreadIdParsed(Result<Seq<char>, Seq<char>>),
    ThreadLookedUp { found: bool },
    PatchParsed(Result<usize, Seq<char>>),
    CwdResolved(Result<Seq<char>, Seq<char>>),
    PathsResolved { hunks: Seq<HunkFilesView>, stamp: ApprovalStamp },
    ApprovalReplied(ApprovalReplyView),
    FilesystemOpened(Option<F>),
    PatchWritten(Result<(), WriteFailureView>),
}

impl<F> View for ApplyPatchEvent<F> {
    type V = ApplyPatchEventView<F>;

    open spec fn view(&self) -> ApplyPatchEventView<F> {
        match self {
            ApplyPatchEvent::ThreadIdParsed(Ok(id)) => ApplyPatchEventView::ThreadIdParsed(Ok(id@)),
            ApplyPatchEvent::ThreadIdParsed(Err(reason)) => ApplyPatchEventView::ThreadIdParsed(
                Err(reason@),
            ),
            ApplyPatchEvent::ThreadLookedUp { found } => ApplyPatchEventView::ThreadLookedUp {
                found: *found,
            },
            ApplyPatchEvent::PatchParsed(Ok(hunks)) => ApplyPatchEventView::PatchParsed(Ok(*hunks)),
            ApplyPatchEvent::PatchParsed(Err(reason)) => ApplyPatchEventView::PatchParsed(
                Err(reason@),
            ),
            ApplyPatchEvent::CwdResolved(Ok(location)) => ApplyPatchEventView::CwdResolved(
                Ok(location@),
            ),
            ApplyPatchEvent::CwdResolved(Err(reason)) => ApplyPatchEventView::CwdResolved(
                Err(reason@),
            ),
            ApplyPatchEvent::PathsResolved { hunks, stamp } => ApplyPatchEventView::PathsResolved {
                hunks: hunk_views(hunks@),
                stamp: *stamp,
            },
            ApplyPatchEvent::ApprovalReplied(reply) => ApplyPatchEventView::ApprovalReplied(reply@),
            ApplyPatchEvent::FilesystemOpened(opened) => ApplyPatchEventView::FilesystemOpened(
                *opened,
            ),
            ApplyPatchEvent::PatchWritten(Ok(_)) => ApplyPatchEventView::PatchWritten(Ok(())),
            ApplyPatchEvent::PatchWritten(Err(failure)) => ApplyPatchEventView::PatchWritten(
                Err(failure@),
            ),
        }
    }
}

impl<F> ApplyPatchEvent<F> {
    /// Reports the resolved paths, with a fresh stamp for the approval request.
    pub fn paths_resolved(hunks: Vec<HunkFiles>) -> (event: ApplyPatchEvent<F>)
        ensures
            event matches ApplyPatchEvent::PathsResolved { hunks: reported, stamp } && reported
                == hunks && stamp::is_random_uuid(stamp.uuid) && exists|time: std::time::SystemTime|
                stamp.started_at_ms == crate::clock::timestamp_ms(
                    #[trigger] crate::clock::millis_since_epoch(time),
                ),
    {
        ApplyPatchEvent::PathsResolved { hunks, stamp: ApprovalStamp::fresh() }
    }
}

/// Something that the server has to do for the request.
#[derive(Debug, PartialEq, Eq)]
pub enum ApplyPatchAction<F> {
    /// Parse a thread id.
    ParseThreadId { id: String },
    /// Look up a thread.
    FindThread { thread_id: String },
    /// Parse a patch.
    ParsePatch { patch: String },
    /// Resolve a native path as the working directory.
    ResolveCwd { cwd: String },
    /// Resolve the configured working directory of a thread.
    ResolveThreadCwd { thread_id: String },
    /// Resolve the paths of the hunks in a working directory.
    ResolvePaths { location: String },
    /// Ask one connection to approve the file changes of a thread.
    RequestApproval {
        connection_id: ConnectionId,
        thread_id: String,
        params: FileChangeRequestApprovalParams,
    },
    /// Ask for the local filesystem.
    OpenFilesystem,
    /// Write a patch to a filesystem, in a working directory.
    WritePatch {
        patch: String,
        location: String,
        filesystem: F,
        /// Name of the sandbox that the write is confined to, if any.
        sandbox: Option<String>,
    },
    /// Answer the request.
    Finish(Result<CodexApplyPatchResponse, JSONRPCErrorError>),
    /// Nothing: the event was not one that the request waits for.
    Nothing,
}

/// The mathematical model of [`ApplyPatchAction`].
pub enum ApplyPatchActionView<F> {
    ParseThreadId { id: Seq<char> },
    FindThread { thread_id: Seq<char> },
    ParsePatch { patch: Seq<char> },
    ResolveCwd { cwd: Seq<char> },
    ResolveThreadCwd { thread_id: Seq<char> },
    ResolvePaths { location: Seq<char> },
    RequestApproval {
        connection_id: ConnectionId,
        thread_id: Seq<char>,
        params: FileChangeRequestApprovalParamsView,
    },
    OpenFilesystem,
    WritePatch {
        patch: Seq<char>,
        location: Seq<char>,
        filesystem: F,
        sandbox: Option<Seq<char>>,
    },
    Finish(Result<CodexApplyPatchResponseView, JSONRPCErrorErrorView>),
    Nothing,
}

impl<F> View for ApplyPatchAction<F> {
    type V = ApplyPatchActionView<F>;

    open spec fn view(&self) -> ApplyPatchActionView<F> {
        match self {
            ApplyPatchAction::ParseThreadId { id } => ApplyPatchActionView::ParseThreadId {
                id: id@,
            },
            ApplyPatchAction::FindThread { thread_id } => ApplyPatchActionView::FindThread {
                thread_id: thread_id@,
            },
            ApplyPatchAction::ParsePatch { patch } => ApplyPatchActionView::ParsePatch {
                patch: patch@,
            },
            ApplyPatchAction::ResolveCwd { cwd } => ApplyPatchActionView::ResolveCwd { cwd: cwd@ },
            ApplyPatchAction::ResolveThreadCwd { thread_id } => {
                ApplyPatchActionView::ResolveThreadCwd { thread_id: thread_id@ }
            },
            ApplyPatchAction::ResolvePaths { location } => ApplyPatchActionView::ResolvePaths {
                location: location@,
            },
            ApplyPatchAction::RequestApproval { connection_id, thread_id, params } => {
                ApplyPatchActionView::RequestApproval {
                    connection_id: *connection_id,
                    thread_id: thread_id@,
                    params: params@,
                }
            },
            ApplyPatchAction::OpenFilesystem => ApplyPatchActionView::OpenFilesystem,
            ApplyPatchAction::WritePatch { patch, location, filesystem, sandbox } => {
                ApplyPatchActionView::WritePatch {
                    patch: patch@,
                    location: location@,
                    filesystem: *filesystem,
                    sandbox: sandbox.deep_view(),
                }
            },
            ApplyPatchAction::Finish(Ok(response)) => ApplyPatchActionView::Finish(Ok(response@)),
            ApplyPatchAction::Finish(Err(failure)) => ApplyPatchActionView::Finish(Err(failure@)),
            ApplyPatchAction::Nothing => ApplyPatchActionView::Nothing,
        }
    }
}

/// What is to be done once the thread is known.
#[derive(Clone, Debug, PartialEq, Eq)]
pub struct PatchJob {
    /// The connection that made the request.
    pub connection_id: ConnectionId,
    pub thread_id: String,
    pub patch: String,
    pub cwd: Option<String>,
    pub reason: Option<String>,
}

/// The mathematical model of [`PatchJob`].
pub struct PatchJobView {
    pub connection_id: ConnectionId,
    pub thread_id: Seq<char>,
    pub patch: Seq<char>,
    pub cwd: Option<Seq<char>>,
    pub reason: Option<Seq<char>>,
}

impl View for PatchJob {
    type V = PatchJobView;

    open spec fn view(&self) -> PatchJobView {
        PatchJobView {
            connection_id: self.connection_id,
            thread_id: self.thread_id@,
            patch: self.patch@,
            cwd: self.cwd.deep_view(),
            reason: self.reason.deep_view(),
        }
    }
}

/// How far the request has come, and what it still needs to know.
#[derive(Clone, Debug, PartialEq, Eq)]
pub enum ApplyPatchState {
    /// The thread id is being parsed.
    ParsingThreadId {
        connection_id: ConnectionId,
        patch: String,
        cwd: Option<String>,
        reason: Option<String>,
    },
    /// The thread is being looked up.
    FindingThread { job: PatchJob },
    /// The patch is being parsed.
    ParsingPatch { job: PatchJob },
    /// The working directory is being resolved.
    ResolvingCwd { job: PatchJob, hunks: usize },
    /// The paths of the hunks are being resolved.
    ResolvingPaths { job: PatchJob, hunks: usize, location: String },
    /// The client is deciding.
    AwaitingApproval { patch: String, location: String, file_changes: Vec<String> },
    /// The client has approved; the filesystem is being opened.
    OpeningFilesystem { patch: String, location: String, file_changes: Vec<String> },
    /// The patch is being written.
    WritingPatch { file_changes: Vec<String> },
    /// The request has been answered.
    Finished,
}

/// The mathematical model of [`ApplyPatchState`].
pub enum ApplyPatchStateView {
    ParsingThreadId {
        connection_id: ConnectionId,
        patch: Seq<char>,
        cwd: Option<Seq<char>>,
        reason: Option<Seq<char>>,
    },
    FindingThread { job: PatchJobView },
    ParsingPatch { job: PatchJobView },
    ResolvingCwd { job: PatchJobView, hunks: usize },
    ResolvingPaths { job: PatchJobView, hunks: usize, location: Seq<char> },
    AwaitingApproval { patch: Seq<char>, location: Seq<char>, file_changes: Seq<Seq<char>> },
    OpeningFilesystem { patch: Seq<char>, location: Seq<char>, file_changes: Seq<Seq<char>> },
    WritingPatch { file_changes: Seq<Seq<char>> },
    Finished,
}

impl View for ApplyPatchState {
    type V = ApplyPatchStateView;

    open spec fn view(&self) -> ApplyPatchStateView {
        match self {
            ApplyPatchState::ParsingThreadId { connection_id, patch, cwd, reason } => {
                ApplyPatchStateView::ParsingThreadId {
                    connection_id: *connection_id,
                    patch: patch@,
                    cwd: cwd.deep_view(),
                    reason: reason.deep_view(),
                }
            },
            ApplyPatchState::FindingThread { job } => ApplyPatchStateView::FindingThread {
                job: job@,
            },
            ApplyPatchState::ParsingPatch { job } => ApplyPatchStateView::ParsingPatch {
                job: job@,
            },
            ApplyPatchState::ResolvingCwd { job, hunks } => ApplyPatchStateView::ResolvingCwd {
                job: job@,
                hunks: *hunks,
            },
            ApplyPatchState::ResolvingPaths { job, hunks, location } => {
                ApplyPatchStateView::ResolvingPaths {
                    job: job@,
                    hunks: *hunks,
                    location: location@,
                }
            },
            ApplyPatchState::AwaitingApproval { patch, location, file_changes } => {
                ApplyPatchStateView::AwaitingApproval {
                    patch: patch@,
                    location: location@,
                    file_changes: text::texts(file_changes@),
                }
            },
            ApplyPatchState::OpeningFilesystem { patch, location, file_changes } => {
                ApplyPatchStateView::OpeningFilesystem {
                    patch: patch@,
                    location: location@,
                    file_changes: text::texts(file_changes@),
                }
            },
            ApplyPatchState::WritingPatch { file_changes } => ApplyPatchStateView::WritingPatch {
                file_changes: text::texts(file_changes@),
            },
            ApplyPatchState::Finished => ApplyPatchStateView::Finished,
        }
    }
}

/// The request is answered with an error that blames it.
pub open spec fn rejected<F>(message: Seq<char>) -> (
    ApplyPatchStateView,
    ApplyPatchActionView<F>,
) {
    (
        ApplyPatchStateView::Finished,
        ApplyPatchActionView::Finish(Err(error::invalid_request_view(message))),
    )
}

/// The request is answered with an error that blames the server.
pub open spec fn failed<F>(message: Seq<char>) -> (
    ApplyPatchStateView,
    ApplyPatchActionView<F>,
) {
    (
        ApplyPatchStateView::Finished,
        ApplyPatchActionView::Finish(Err(error::internal_error_view(message))),
    )
}

/// The request is answered with a response.
pub open spec fn answered<F>(applied: bool, file_changes: Seq<Seq<char>>) -> (
    ApplyPatchStateView,
    ApplyPatchActionView<F>,
) {
    (
        ApplyPatchStateView::Finished,
        ApplyPatchActionView::Finish(Ok(CodexApplyPatchResponseView { applied, file_changes })),
    )
}

/// How the request begins: by parsing the thread id.
pub open spec fn opening<F>(connection_id: ConnectionId, params: CodexApplyPatchParamsView) -> (
    ApplyPatchStateView,
    ApplyPatchActionView<F>,
) {
    (
        ApplyPatchStateView::ParsingThreadId {
            connection_id,
            patch: params.patch,
            cwd: params.cwd,
            reason: params.reason,
        },
        ApplyPatchActionView::ParseThreadId { id: params.thread_id },
    )
}

/// The approval request for a standalone patch: it goes to the connection that
/// made the request, and refers to no turn in progress.
pub open spec fn approval_request<F>(
    job: PatchJobView,
    stamp: ApprovalStamp,
) -> ApplyPatchActionView<F> {
    ApplyPatchActionView::RequestApproval {
        connection_id: job.connection_id,
        thread_id: job.thread_id,
        params: FileChangeRequestApprovalParamsView {
            thread_id: job.thread_id,
            turn_id: Seq::empty(),
            item_id: stamp::item_id(stamp.uuid),
            started_at_ms: stamp.started_at_ms,
            reason: job.reason,
            grant_root: None,
        },
    }
}

/// How the request goes on when the client has decided or failed to.
pub open spec fn after_reply<F>(
    patch: Seq<char>,
    location: Seq<char>,
    file_changes: Seq<Seq<char>>,
    reply: ApprovalReplyView,
) -> (ApplyPatchStateView, ApplyPatchActionView<F>) {
    match reply {
        ApprovalReplyView::Decided(decision) => if accepts(decision) {
            (
                ApplyPatchStateView::OpeningFilesystem { patch, location, file_changes },
                ApplyPatchActionView::OpenFilesystem,
            )
        } else {
            answered(false, file_changes)
        },
        ApprovalReplyView::Unreadable(reason) => failed(
            "failed to deserialize FileChangeRequestApprovalResponse: "@ + reason,
        ),
        ApprovalReplyView::Refused(failure) => (
            ApplyPatchStateView::Finished,
            ApplyPatchActionView::Finish(Err(failure)),
        ),
        ApprovalReplyView::Lost(reason) => failed("file change approval request failed: "@ + reason),
    }
}

/// How the request goes on when something is reported. What the request does
/// not wait for leaves it where it is.
pub open spec fn transition<F>(state: ApplyPatchStateView, event: ApplyPatchEventView<F>) -> (
    ApplyPatchStateView,
    ApplyPatchActionView<F>,
) {
    match (state, event) {
        (
            ApplyPatchStateView::ParsingThreadId { connection_id, patch, cwd, reason },
            ApplyPatchEventView::ThreadIdParsed(parsed),
        ) => match parsed {
            Err(why) => rejected("invalid thread id: "@ + why),
            Ok(thread_id) => (
                ApplyPatchStateView::FindingThread {
                    job: PatchJobView { connection_id, thread_id, patch, cwd, reason },
                },
                ApplyPatchActionView::FindThread { thread_id },
            ),
        },
        (
            ApplyPatchStateView::FindingThread { job },
            ApplyPatchEventView::ThreadLookedUp { found },
        ) => if found {
            (
                ApplyPatchStateView::ParsingPatch { job },
                ApplyPatchActionView::ParsePatch { patch: job.patch },
            )
        } else {
            rejected("thread not found: "@ + job.thread_id)
        },
        (
            ApplyPatchStateView::ParsingPatch { job },
            ApplyPatchEventView::PatchParsed(parsed),
        ) => match parsed {
            Err(why) => rejected("invalid patch: "@ + why),
            Ok(hunks) => if hunks == 0 {
                rejected("patch contains no file changes"@)
            } else {
                (
                    ApplyPatchStateView::ResolvingCwd { job, hunks },
                    match job.cwd {
                        Some(cwd) => ApplyPatchActionView::ResolveCwd { cwd },
                        None => ApplyPatchActionView::ResolveThreadCwd { thread_id: job.thread_id },
                    },
                )
            },
        },
        (
            ApplyPatchStateView::ResolvingCwd { job, hunks },
            ApplyPatchEventView::CwdResolved(resolved),
        ) => match resolved {
            Err(why) => rejected("invalid cwd: "@ + why),
            Ok(location) => (
                ApplyPatchStateView::ResolvingPaths { job, hunks, location },
                ApplyPatchActionView::ResolvePaths { location },
            ),
        },
        (
            ApplyPatchStateView::ResolvingPaths { job, hunks, location },
            ApplyPatchEventView::PathsResolved { hunks: resolved, stamp },
        ) => if resolved.len() == hunks {
            (
                ApplyPatchStateView::AwaitingApproval {
                    patch: job.patch,
                    location,
                    file_changes: touched_files(resolved),
                },
                approval_request(job, stamp),
            )
        } else {
            (state, ApplyPatchActionView::Nothing)
        },
        (
            ApplyPatchStateView::AwaitingApproval { patch, location, file_changes },
            ApplyPatchEventView::ApprovalReplied(reply),
        ) => after_reply(patch, location, file_changes, reply),
        (
            ApplyPatchStateView::OpeningFilesystem { patch, location, file_changes },
            ApplyPatchEventView::FilesystemOpened(opened),
        ) => match opened {
            Some(filesystem) => (
                ApplyPatchStateView::WritingPatch { file_changes },
                ApplyPatchActionView::WritePatch { patch, location, filesystem, sandbox: None },
            ),
            None => failed("local filesystem is not configured"@),
        },
        (
            ApplyPatchStateView::WritingPatch { file_changes },
            ApplyPatchEventView::PatchWritten(written),
        ) => match written {
            Ok(_) => answered(true, file_changes),
            Err(failure) => rejected(
                output::write_failure_message(
                    failure.error,
                    output::trimmed(output::utf8_lossy(failure.stderr)),
                ),
            ),
        },
        _ => (state, ApplyPatchActionView::Nothing),
    }
}

fn reject<F>(error: JSONRPCErrorError) -> (ended: (ApplyPatchState, ApplyPatchAction<F>))
    ensures
        ended.0@ == ApplyPatchStateView::Finished,
        ended.1@ == ApplyPatchActionView::<F>::Finish(Err(error@)),
{
    (ApplyPatchState::Finished, ApplyPatchAction::Finish(Err(error)))
}

/// Opens a patch request made by a connection.
pub fn apply_patch<F>(connection_id: ConnectionId, params: CodexApplyPatchParams) -> (opened: (
    ApplyPatchState,
    ApplyPatchAction<F>,
))
    ensures
        (opened.0@, opened.1@) == opening::<F>(connection_id, params@),
{
    (
        ApplyPatchState::ParsingThreadId {
            connection_id,
            patch: params.patch,
            cwd: params.cwd,
            reason: params.reason,
        },
        ApplyPatchAction::ParseThreadId { id: params.thread_id },
    )
}

/// Asks for the approval of a job's file changes.
fn request_approval<F>(
    job: PatchJob,
    location: String,
    hunks: Vec<HunkFiles>,
    stamp: ApprovalStamp,
) -> (asked: (ApplyPatchState, ApplyPatchAction<F>))
    ensures
        asked.0@ == (ApplyPatchStateView::AwaitingApproval {
            patch: job@.patch,
            location: location@,
            file_changes: touched_files(hunk_views(hunks@)),
        }),
        asked.1@ == approval_request::<F>(job@, stamp),
{
    let file_changes = list_touched_files(hunks);
    let params = FileChangeRequestApprovalParams {
        thread_id: job.thread_id.clone(),
        turn_id: String::new(),
        item_id: stamp.item_id(),
        started_at_ms: stamp.started_at_ms,
        reason: job.reason,
        grant_root: None,
    };
    (
        ApplyPatchState::AwaitingApproval { patch: job.patch, location, file_changes },
        ApplyPatchAction::RequestApproval {
            connection_id: job.connection_id,
            thread_id: job.thread_id,
            params,
        },
    )
}

/// Goes on when the client has decided or failed to.
fn reply_received<F>(
    patch: String,
    location: String,
    file_changes: Vec<String>,
    reply: ApprovalReply,
) -> (next: (ApplyPatchState, ApplyPatchAction<F>))
    ensures
        (next.0@, next.1@) == after_reply::<F>(
            patch@,
            location@,
            text::texts(file_changes@),
            reply@,
        ),
{
    match reply {
        ApprovalReply::Decided(decision) => if decision.is_approval() {
            (
                ApplyPatchState::OpeningFilesystem { patch, location, file_changes },
                ApplyPatchAction::OpenFilesystem,
            )
        } else {
            (
                ApplyPatchState::Finished,
                ApplyPatchAction::Finish(
                    Ok(CodexApplyPatchResponse { applied: false, file_changes }),
                ),
            )
        },
        ApprovalReply::Unreadable(reason) => reject(
            error::internal_error_about(
                "failed to deserialize FileChangeRequestApprovalResponse: ",
                reason.as_str(),
            ),
        ),
        ApprovalReply::Refused(failure) => reject(failure),
        ApprovalReply::Lost(reason) => reject(
            error::internal_error_about("file change approval request failed: ", reason.as_str()),
        ),
    }
}

impl ApplyPatchState {
    /// Goes on with the request when something is reported.
    pub fn step<F>(self, event: ApplyPatchEvent<F>) -> (next: (
        ApplyPatchState,
        ApplyPatchAction<F>,
    ))
        ensures
            (next.0@, next.1@) == transition(self@, event@),
    {
        match (self, event) {
            (
                ApplyPatchState::ParsingThreadId { connection_id, patch, cwd, reason },
                ApplyPatchEvent::ThreadIdParsed(parsed),
            ) => match parsed {
                Err(why) => reject(
                    error::invalid_request_about("invalid thread id: ", why.as_str()),
                ),
                Ok(thread_id) => {
                    let action = ApplyPatchAction::FindThread { thread_id: thread_id.clone() };
                    let job = PatchJob { connection_id, thread_id, patch, cwd, reason };
                    (ApplyPatchState::FindingThread { job }, action)
                },
            },
            (
                ApplyPatchState::FindingThread { job },
                ApplyPatchEvent::ThreadLookedUp { found },
            ) => if found {
                let action = ApplyPatchAction::ParsePatch { patch: job.patch.clone() };
                (ApplyPatchState::ParsingPatch { job }, action)
            } else {
                reject(error::invalid_request_about("thread not found: ", job.thread_id.as_str()))
            },
            (
                ApplyPatchState::ParsingPatch { job },
                ApplyPatchEvent::PatchParsed(parsed),
            ) => match parsed {
                Err(why) => reject(error::invalid_request_about("invalid patch: ", why.as_str())),
                Ok(hunks) => if hunks == 0 {
                    reject(error::invalid_request("patch contains no file changes".to_owned()))
                } else {
                    let action = match &job.cwd {
                        Some(cwd) => ApplyPatchAction::ResolveCwd { cwd: cwd.clone() },
                        None => ApplyPatchAction::ResolveThreadCwd {
                            thread_id: job.thread_id.clone(),
                        },
                    };
                    (ApplyPatchState::ResolvingCwd { job, hunks }, action)
                },
            },
            (
                ApplyPatchState::ResolvingCwd { job, hunks },
                ApplyPatchEvent::CwdResolved(resolved),
            ) => match resolved {
                Err(why) => reject(error::invalid_request_about("invalid cwd: ", why.as_str())),
                Ok(location) => {
                    let action = ApplyPatchAction::ResolvePaths { location: location.clone() };
                    (ApplyPatchState::ResolvingPaths { job, hunks, location }, action)
                },
            },
            (
                ApplyPatchState::ResolvingPaths { job, hunks, location },
                ApplyPatchEvent::PathsResolved { hunks: resolved, stamp },
            ) => if resolved.len() == hunks {
                request_approval(job, location, resolved, stamp)
            } else {
                (
                    ApplyPatchState::ResolvingPaths { job, hunks, location },
                    ApplyPatchAction::Nothing,
                )
            },
            (
                ApplyPatchState::AwaitingApproval { patch, location, file_changes },
                ApplyPatchEvent::ApprovalReplied(reply),
            ) => reply_received(patch, location, file_changes, reply),
            (
                ApplyPatchState::OpeningFilesystem { patch, location, file_changes },
                ApplyPatchEvent::FilesystemOpened(opened),
            ) => match opened {
                Some(filesystem) => (
                    ApplyPatchState::WritingPatch { file_changes },
                    ApplyPatchAction::WritePatch { patch, location, filesystem, sandbox: None },
                ),
                None => reject(
                    error::internal_error("local filesystem is not configured".to_owned()),
                ),
            },
            (
                ApplyPatchState::WritingPatch { file_changes },
                ApplyPatchEvent::PatchWritten(written),
            ) => match written {
                Ok(_) => (
                    ApplyPatchState::Finished,
                    ApplyPatchAction::Finish(
                        Ok(CodexApplyPatchResponse { applied: true, file_changes }),
                    ),
                ),
                Err(failure) => reject(
                    error::invalid_request(
                        output::describe_write_failure(
                            failure.error.as_str(),
                            failure.stderr.as_slice(),
                        ),
                    ),
                ),
            },
            (state, _) => (state, ApplyPatchAction::Nothing),
        }
    }
}

} // verus!
