//! What holds of every patch request, whatever the server reports and in
//! whatever order.
use crate::apply_patch;
use crate::apply_patch::{
    ApplyPatchActionView, ApplyPatchEventView, ApplyPatchStateView, ApprovalReplyView,
    FileChangeRequestApprovalParamsView, HunkFilesView, PatchJobView,
};
use crate::protocol::{CodexApplyPatchParamsView, ConnectionId};
use crate::stamp::ApprovalStamp;
use vstd::prelude::*;

verus! {

/// A patch request with everything that is reported while it is served.
pub struct PatchRun<F> {
    pub connection_id: ConnectionId,
    pub params: CodexApplyPatchParamsView,
    pub events: Seq<ApplyPatchEventView<F>>,
}

impl<F> PatchRun<F> {
    /// Where the request stands after the first `count` events.
    pub open spec fn state(self, count: int) -> ApplyPatchStateView
        decreases count,
    {
        if count <= 0 {
            apply_patch::opening::<F>(self.connection_id, self.params).0
        } else {
            apply_patch::transition(self.state(count - 1), self.events[count - 1]).0
        }
    }

    /// What the event at `index` leads to.
    pub open spec fn action(self, index: int) -> ApplyPatchActionView<F> {
        apply_patch::transition(self.state(index), self.events[index]).1
    }

    /// Whether there is an event at `index`.
    pub open spec fn has(self, index: int) -> bool {
        0 <= index < self.events.len()
    }

    /// Whether the event at `index` leads to an approval request that asks the
    /// connection which made the patch request.
    pub open spec fn asks_at(self, index: int) -> bool {
        self.action(index) matches ApplyPatchActionView::RequestApproval { connection_id, .. }
            && connection_id == self.connection_id
    }

    /// Whether the event at `index` is the client's consent, which the request
    /// waited for.
    pub open spec fn consents_at(self, index: int) -> bool {
        &&& self.state(index) is AwaitingApproval
        &&& self.events[index] matches ApplyPatchEventView::ApprovalReplied(
            ApprovalReplyView::Decided(decision),
        ) && apply_patch::accepts(decision)
    }

    /// Whether the event at `index` is the opened filesystem, on which the patch
    /// of the request is to be written to it, confined to no sandbox.
    pub open spec fn writes_at(self, index: int) -> bool {
        self.action(index) matches ApplyPatchActionView::WritePatch {
            patch,
            filesystem,
            sandbox,
            ..
        } && patch == self.params.patch && sandbox is None && self.events[index]
            == ApplyPatchEventView::<F>::FilesystemOpened(Some(filesystem))
    }

    /// Whether the event at `index` is the resolved working directory, which
    /// the request waited for.
    pub open spec fn locates_at(self, index: int, location: Seq<char>) -> bool {
        &&& self.state(index) is ResolvingCwd
        &&& self.events[index] == ApplyPatchEventView::<F>::CwdResolved(Ok(location))
    }

    /// Whether the event at `index` is that the patch was written.
    pub open spec fn confirms_at(self, index: int) -> bool {
        self.events[index] matches ApplyPatchEventView::PatchWritten(Ok(_))
    }

    /// Whether the event at `index` names the files of the hunks, on which
    /// approval is asked for all of them, listed as `files`.
    pub open spec fn lists_at(
        self,
        index: int,
        hunks: Seq<HunkFilesView>,
        files: Seq<Seq<char>>,
    ) -> bool {
        &&& self.asks_at(index)
        &&& self.events[index] matches ApplyPatchEventView::PathsResolved { hunks: named, .. }
            && named == hunks
        &&& files == apply_patch::touched_files(hunks)
    }

    /// Whether the event at `index` is a parsed patch of `hunks` hunks, which
    /// the request waited for.
    pub open spec fn parses_at(self, index: int, hunks: int) -> bool {
        &&& self.state(index) is ParsingPatch
        &&& self.events[index] matches ApplyPatchEventView::PatchParsed(Ok(count)) && count == hunks
    }

    /// Whether the event at `index` is a parsed thread id, which the request
    /// waited for.
    pub open spec fn identifies_at(self, index: int, thread_id: Seq<char>) -> bool {
        &&& self.state(index) is ParsingThreadId
        &&& self.events[index] == ApplyPatchEventView::<F>::ThreadIdParsed(Ok(thread_id))
    }

    /// Whether the event at `index` is that the thread was found, which the
    /// request waited for.
    pub open spec fn finds_at(self, index: int) -> bool {
        &&& self.state(index) is FindingThread
        &&& self.events[index] == (ApplyPatchEventView::<F>::ThreadLookedUp { found: true })
    }
}

/// How far a state is from the beginning.
pub open spec fn rank(state: ApplyPatchStateView) -> int {
    match state {
        ApplyPatchStateView::ParsingThreadId { .. } => 0,
        ApplyPatchStateView::FindingThread { .. } => 1,
        ApplyPatchStateView::ParsingPatch { .. } => 2,
        ApplyPatchStateView::ResolvingCwd { .. } => 3,
        ApplyPatchStateView::ResolvingPaths { .. } => 4,
        ApplyPatchStateView::AwaitingApproval { .. } => 5,
        ApplyPatchStateView::OpeningFilesystem { .. } => 6,
        ApplyPatchStateView::WritingPatch { .. } => 7,
        ApplyPatchStateView::Finished => 8,
    }
}

/// An event leaves the request where it is and asks for nothing, or takes it
/// forward and asks for something.
pub proof fn law_step_goes_forward_or_nowhere<F>(
    state: ApplyPatchStateView,
    event: ApplyPatchEventView<F>,
)
    ensures
        ({
            let (next, action) = apply_patch::transition(state, event);
            if action is Nothing {
                next == state
            } else {
                rank(next) > rank(state)
            }
        }),
{
}

/// Nothing that is reported moves an answered request.
pub proof fn law_answered_request_stays_answered<F>(event: ApplyPatchEventView<F>)
    ensures
        apply_patch::transition(ApplyPatchStateView::Finished, event) == (
            ApplyPatchStateView::Finished,
            ApplyPatchActionView::<F>::Nothing,
        ),
{
}

/// Whether an event is what a request in the given state waits for.
pub open spec fn awaits<F>(state: ApplyPatchStateView, event: ApplyPatchEventView<F>) -> bool {
    match state {
        ApplyPatchStateView::ParsingThreadId { .. } => event is ThreadIdParsed,
        ApplyPatchStateView::FindingThread { .. } => event is ThreadLookedUp,
        ApplyPatchStateView::ParsingPatch { .. } => event is PatchParsed,
        ApplyPatchStateView::ResolvingCwd { .. } => event is CwdResolved,
        ApplyPatchStateView::ResolvingPaths { hunks: count, .. } => {
            event matches ApplyPatchEventView::PathsResolved { hunks, .. } && hunks.len() == count
        },
        ApplyPatchStateView::AwaitingApproval { .. } => event is ApprovalReplied,
        ApplyPatchStateView::OpeningFilesystem { .. } => event is FilesystemOpened,
        ApplyPatchStateView::WritingPatch { .. } => event is PatchWritten,
        ApplyPatchStateView::Finished => false,
    }
}

/// A request goes on exactly with what it waits for, and then waits for the
/// outcome of what it has asked for: a server that reports on every action can
/// bring it to its end.
pub proof fn law_request_waits_for_what_it_asked<F>(
    state: ApplyPatchStateView,
    event: ApplyPatchEventView<F>,
)
    ensures
        ({
            let (next, action) = apply_patch::transition(state, event);
            &&& !(action is Nothing) <==> awaits(state, event)
            &&& action is FindThread ==> next is FindingThread
            &&& action is ParsePatch ==> next is ParsingPatch
            &&& action is ResolveCwd || action is ResolveThreadCwd ==> next is ResolvingCwd
            &&& action is ResolvePaths ==> next is ResolvingPaths
            &&& action is RequestApproval ==> next is AwaitingApproval
            &&& action is OpenFilesystem ==> next is OpeningFilesystem
            &&& action is WritePatch ==> next is WritingPatch
            &&& action is Finish ==> next is Finished
            &&& !(action is ParseThreadId)
        }),
{
}

proof fn lemma_rank_never_falls<F>(run: PatchRun<F>, earlier: int, later: int)
    requires
        0 <= earlier <= later,
    ensures
        rank(run.state(earlier)) <= rank(run.state(later)),
    decreases later - earlier,
{
    if earlier < later {
        lemma_rank_never_falls(run, earlier, later - 1);
        law_step_goes_forward_or_nowhere(run.state(later - 1), run.events[later - 1]);
    }
}

/// Of two events that lead to anything, the later one finds the request
/// further on; so no action is asked for twice.
proof fn lemma_actions_climb<F>(run: PatchRun<F>, earlier: int, later: int)
    requires
        0 <= earlier < later,
        !(run.action(earlier) is Nothing),
    ensures
        rank(run.state(earlier)) < rank(run.state(later)),
{
    law_step_goes_forward_or_nowhere(run.state(earlier), run.events[earlier]);
    assert(run.state(earlier + 1) == apply_patch::transition(
        run.state(earlier),
        run.events[earlier],
    ).0);
    lemma_rank_never_falls(run, earlier + 1, later);
}

/// What a job keeps of the request it was made for.
spec fn job_is_of<F>(run: PatchRun<F>, job: PatchJobView) -> bool {
    &&& job.connection_id == run.connection_id
    &&& job.patch == run.params.patch
    &&& job.cwd == run.params.cwd
    &&& job.reason == run.params.reason
}

/// The patch was parsed, and then approval was asked for, on files listed as
/// `files`, by the first `count` events.
spec fn was_listed<F>(run: PatchRun<F>, count: int, files: Seq<Seq<char>>) -> bool {
    exists|parsed: int, asked: int, hunks: Seq<HunkFilesView>|
        0 <= parsed < asked < count && hunks.len() > 0 && #[trigger] run.parses_at(
            parsed,
            hunks.len() as int,
        ) && #[trigger] run.lists_at(asked, hunks, files)
}

/// The client consented, after having been asked, by one of the first `count`
/// events.
spec fn was_approved<F>(run: PatchRun<F>, count: int) -> bool {
    exists|asked: int, answered: int|
        0 <= asked < answered < count && #[trigger] run.asks_at(asked)
            && #[trigger] run.consents_at(answered)
}

/// The thread was identified and found by the first `count` events.
spec fn was_found<F>(run: PatchRun<F>, count: int, thread_id: Seq<char>) -> bool {
    exists|identified: int, found: int|
        0 <= identified < found < count && #[trigger] run.identifies_at(identified, thread_id)
            && #[trigger] run.finds_at(found)
}

/// The patch was parsed into `hunks` hunks by one of the first `count` events.
spec fn was_parsed<F>(run: PatchRun<F>, count: int, hunks: int) -> bool {
    exists|parsed: int| 0 <= parsed < count && #[trigger] run.parses_at(parsed, hunks)
}

/// The working directory was located by one of the first `count` events.
spec fn was_located<F>(run: PatchRun<F>, count: int, location: Seq<char>) -> bool {
    exists|located: int| 0 <= located < count && #[trigger] run.locates_at(located, location)
}

/// What is known of a request after its first `count` events.
spec fn inv<F>(run: PatchRun<F>, count: int) -> bool {
    match run.state(count) {
        ApplyPatchStateView::ParsingThreadId { connection_id, patch, cwd, reason } => {
            &&& connection_id == run.connection_id
            &&& patch == run.params.patch
            &&& cwd == run.params.cwd
            &&& reason == run.params.reason
        },
        ApplyPatchStateView::FindingThread { job } => {
            &&& job_is_of(run, job)
            &&& exists|identified: int|
                0 <= identified < count && #[trigger] run.identifies_at(identified, job.thread_id)
        },
        ApplyPatchStateView::ParsingPatch { job } => {
            &&& job_is_of(run, job)
            &&& was_found(run, count, job.thread_id)
        },
        ApplyPatchStateView::ResolvingCwd { job, hunks } => {
            &&& job_is_of(run, job)
            &&& was_found(run, count, job.thread_id)
            &&& was_parsed(run, count, hunks as int)
            &&& hunks > 0
        },
        ApplyPatchStateView::ResolvingPaths { job, hunks, location } => {
            &&& job_is_of(run, job)
            &&& was_found(run, count, job.thread_id)
            &&& was_parsed(run, count, hunks as int)
            &&& hunks > 0
            &&& was_located(run, count, location)
        },
        ApplyPatchStateView::AwaitingApproval { patch, location, file_changes } => {
            &&& patch == run.params.patch
            &&& was_located(run, count, location)
            &&& was_listed(run, count, file_changes)
        },
        ApplyPatchStateView::OpeningFilesystem { patch, location, file_changes } => {
            &&& patch == run.params.patch
            &&& was_located(run, count, location)
            &&& was_listed(run, count, file_changes)
            &&& was_approved(run, count)
        },
        ApplyPatchStateView::WritingPatch { file_changes } => {
            &&& was_listed(run, count, file_changes)
            &&& exists|written: int| 0 <= written < count && #[trigger] run.writes_at(written)
        },
        ApplyPatchStateView::Finished => true,
    }
}

proof fn lemma_inv<F>(run: PatchRun<F>, count: int)
    requires
        0 <= count <= run.events.len(),
    ensures
        inv(run, count),
    decreases count,
{
    if count > 0 {
        let last = count - 1;
        lemma_inv(run, last);
        let state = run.state(last);
        let event = run.events[last];
        match state {
            ApplyPatchStateView::ParsingThreadId { .. } => {
                if let ApplyPatchEventView::ThreadIdParsed(Ok(thread_id)) = event {
                    assert(run.identifies_at(last, thread_id));
                    assert(run.state(count)->FindingThread_job.thread_id == thread_id);
                }
            },
            ApplyPatchStateView::FindingThread { job } => {
                let identified = choose|identified: int|
                    0 <= identified < last && #[trigger] run.identifies_at(
                        identified,
                        job.thread_id,
                    );
                if event == (ApplyPatchEventView::<F>::ThreadLookedUp { found: true }) {
                    assert(run.identifies_at(identified, job.thread_id) && run.finds_at(last));
                }
            },
            ApplyPatchStateView::ParsingPatch { job } => {
                if let ApplyPatchEventView::PatchParsed(Ok(hunks)) = event {
                    assert(run.parses_at(last, hunks as int));
                }
            },
            ApplyPatchStateView::ResolvingCwd { .. } => {
                if let ApplyPatchEventView::CwdResolved(Ok(location)) = event {
                    assert(run.locates_at(last, location));
                    assert(run.state(count)->ResolvingPaths_location == location);
                }
            },
            ApplyPatchStateView::ResolvingPaths { job, hunks, .. } => {
                let parsed = choose|parsed: int|
                    0 <= parsed < last && #[trigger] run.parses_at(parsed, hunks as int);
                if let ApplyPatchEventView::PathsResolved { hunks: named, stamp } = event {
                    if named.len() == hunks {
                        let files = apply_patch::touched_files(named);
                        assert(run.parses_at(parsed, named.len() as int) && run.lists_at(
                            last,
                            named,
                            files,
                        ));
                        assert(run.state(count)->AwaitingApproval_file_changes == files);
                    }
                }
            },
            ApplyPatchStateView::AwaitingApproval { file_changes, .. } => {
                let (parsed, asked, hunks) = choose|
                    parsed: int,
                    asked: int,
                    hunks: Seq<HunkFilesView>,
                |
                    0 <= parsed < asked < last && hunks.len() > 0 && #[trigger] run.parses_at(
                        parsed,
                        hunks.len() as int,
                    ) && #[trigger] run.lists_at(asked, hunks, file_changes);
                assert(run.asks_at(asked));
                if run.consents_at(last) {
                    assert(run.asks_at(asked) && run.consents_at(last));
                }
            },
            ApplyPatchStateView::OpeningFilesystem { patch, .. } => {
                if event matches ApplyPatchEventView::FilesystemOpened(Some(_)) {
                    assert(run.writes_at(last));
                }
            },
            _ => {},
        }
    }
}

/// The patch only lands on disk after the client has approved it: whenever a
/// patch is to be written, it is the patch of the request, the connection that
/// made the request was asked for its approval before, and has given it. It is
/// written to the filesystem that was opened last, confined to no sandbox.
pub proof fn law_patch_is_written_only_after_approval<F>(run: PatchRun<F>, index: int)
    requires
        run.has(index),
        run.action(index) is WritePatch,
    ensures
        run.writes_at(index),
        exists|asked: int, answered: int|
            0 <= asked < answered < index && #[trigger] run.asks_at(asked)
                && #[trigger] run.consents_at(answered),
{
    lemma_inv(run, index);
}

/// The working directory is the one that the request gives; only if it gives
/// none, it is the configured one of its thread, which was found before.
pub proof fn law_working_directory_is_the_one_given<F>(run: PatchRun<F>, index: int)
    requires
        run.has(index),
    ensures
        run.action(index) matches ApplyPatchActionView::ResolveCwd { cwd } ==> run.params.cwd
            == Some(cwd),
        run.action(index) matches ApplyPatchActionView::ResolveThreadCwd { thread_id } ==> {
            &&& run.params.cwd is None
            &&& exists|identified: int, found: int|
                0 <= identified < found < index && #[trigger] run.identifies_at(
                    identified,
                    thread_id,
                ) && #[trigger] run.finds_at(found)
        },
{
    lemma_inv(run, index);
    if let ApplyPatchActionView::ResolveThreadCwd { thread_id } = run.action(index) {
        let known = run.state(index)->ParsingPatch_job.thread_id;
        assert(thread_id == known);
        let (identified, found) = choose|identified: int, found: int|
            0 <= identified < found < index && #[trigger] run.identifies_at(identified, known)
                && #[trigger] run.finds_at(found);
        assert(run.identifies_at(identified, thread_id) && run.finds_at(found));
    }
}

/// The patch is written in the working directory that was resolved, the one in
/// which the paths of its hunks are resolved too.
pub proof fn law_patch_is_written_where_its_paths_were_resolved<F>(run: PatchRun<F>, index: int)
    requires
        run.has(index),
        run.action(index) is WritePatch,
    ensures
        run.action(index) matches ApplyPatchActionView::WritePatch { location, .. } && exists|
            located: int,
        |
            0 <= located < index && #[trigger] run.locates_at(located, location) && run.action(
                located,
            ) == (ApplyPatchActionView::<F>::ResolvePaths { location }),
{
    lemma_inv(run, index);
    let known = run.state(index)->OpeningFilesystem_location;
    let named = run.action(index)->WritePatch_location;
    assert(named == known);
    let located = choose|located: int|
        0 <= located < index && #[trigger] run.locates_at(located, known);
    assert(run.locates_at(located, named));
    assert(run.action(located) == (ApplyPatchActionView::<F>::ResolvePaths { location: named }));
}

/// A response says that the patch was applied exactly if the patch was to be
/// written before and the last thing reported is that it was.
pub proof fn law_applied_means_written<F>(run: PatchRun<F>, index: int)
    requires
        run.has(index),
        run.action(index) matches ApplyPatchActionView::Finish(Ok(_)),
    ensures
        run.action(index) matches ApplyPatchActionView::Finish(Ok(response)) && (response.applied
            <==> (run.confirms_at(index) && exists|written: int|
            0 <= written < index && #[trigger] run.writes_at(written))),
{
    lemma_inv(run, index);
}

/// A response says that the patch was not applied only if the client declined
/// or cancelled; and then the patch is never written.
pub proof fn law_declined_patch_is_never_written<F>(run: PatchRun<F>, index: int, other: int)
    requires
        run.has(index),
        run.has(other),
        run.action(index) matches ApplyPatchActionView::Finish(Ok(response)) && !response.applied,
    ensures
        run.events[index] matches ApplyPatchEventView::ApprovalReplied(
            ApprovalReplyView::Decided(decision),
        ) && (decision is Decline || decision is Cancel),
        !(run.action(other) is WritePatch),
{
    if other < index {
        lemma_rank_never_falls(run, other, index);
    } else if index < other {
        lemma_actions_climb(run, index, other);
        assert(run.state(index + 1) is Finished);
        lemma_rank_never_falls(run, index + 1, other);
    }
}

/// The client is asked at most once, the patch is written at most once, and
/// the request is answered at most once.
pub proof fn law_nothing_is_done_twice<F>(run: PatchRun<F>, first: int, second: int)
    requires
        run.has(first),
        run.has(second),
        first != second,
    ensures
        !(run.action(first) is RequestApproval && run.action(second) is RequestApproval),
        !(run.action(first) is WritePatch && run.action(second) is WritePatch),
        !(run.action(first) is Finish && run.action(second) is Finish),
{
    if run.action(first) is Finish && run.action(second) is Finish {
        if first < second {
            assert(run.state(first + 1) is Finished);
            lemma_rank_never_falls(run, first + 1, second);
        } else {
            assert(run.state(second + 1) is Finished);
            lemma_rank_never_falls(run, second + 1, first);
        }
    } else if !(run.action(first) is Nothing) && !(run.action(second) is Nothing) {
        if first < second {
            lemma_actions_climb(run, first, second);
        } else {
            lemma_actions_climb(run, second, first);
        }
    }
}

/// Once the request is answered nothing more is done for it.
pub proof fn law_answer_is_the_end<F>(run: PatchRun<F>, answered: int, later: int)
    requires
        run.has(later),
        0 <= answered < later,
        run.action(answered) is Finish,
    ensures
        run.action(later) is Nothing,
{
    assert(run.state(answered + 1) is Finished);
    lemma_rank_never_falls(run, answered + 1, later);
}

/// Whether a list names every file that some hunks touch, the place that a file
/// is moved to as well as the place that it leaves.
pub open spec fn names_every_file(files: Seq<Seq<char>>, hunks: Seq<HunkFilesView>) -> bool {
    forall|i: int|
        0 <= i < hunks.len() ==> {
            &&& files.contains(apply_patch::reported_path((#[trigger] hunks[i]).file))
            &&& hunks[i].moved_to matches Some(destination) ==> files.contains(
                apply_patch::reported_path(destination),
            )
        }
}

proof fn lemma_touched_files_name_every_file(hunks: Seq<HunkFilesView>)
    ensures
        names_every_file(apply_patch::touched_files(hunks), hunks),
{
    let files = apply_patch::touched_files(hunks);
    assert forall|i: int| 0 <= i < hunks.len() implies {
        &&& files.contains(apply_patch::reported_path((#[trigger] hunks[i]).file))
        &&& hunks[i].moved_to matches Some(destination) ==> files.contains(
            apply_patch::reported_path(destination),
        )
    } by {
        let own = apply_patch::hunk_touches(hunks[i]);
        assert(own.contains(own[0]));
        apply_patch::law_touched_files_are_those_of_the_hunks(hunks, own[0]);
        if hunks[i].moved_to is Some {
            assert(own.contains(own[1]));
            apply_patch::law_touched_files_are_those_of_the_hunks(hunks, own[1]);
        }
    }
}

/// Every response, approved or not, lists the files that the client was asked
/// about: those that all the hunks of the patch touch, and at least one. A file
/// that is moved is listed under both paths.
pub proof fn law_response_lists_the_touched_files<F>(run: PatchRun<F>, index: int)
    requires
        run.has(index),
        run.action(index) matches ApplyPatchActionView::Finish(Ok(_)),
    ensures
        run.action(index) matches ApplyPatchActionView::Finish(Ok(response)) && {
            &&& response.file_changes.len() > 0
            &&& exists|parsed: int, asked: int, hunks: Seq<HunkFilesView>|
                0 <= parsed < asked < index && #[trigger] run.parses_at(parsed, hunks.len() as int)
                    && #[trigger] run.lists_at(asked, hunks, response.file_changes)
                    && names_every_file(response.file_changes, hunks)
        },
{
    lemma_inv(run, index);
    let files = (run.action(index)->Finish_0->Ok_0).file_changes;
    assert(was_listed(run, index, files));
    let (parsed, asked, hunks) = choose|parsed: int, asked: int, hunks: Seq<HunkFilesView>|
        0 <= parsed < asked < index && hunks.len() > 0 && #[trigger] run.parses_at(
            parsed,
            hunks.len() as int,
        ) && #[trigger] run.lists_at(asked, hunks, files);
    apply_patch::law_every_hunk_touches_a_file(hunks);
    lemma_touched_files_name_every_file(hunks);
    assert(run.parses_at(parsed, hunks.len() as int) && run.lists_at(asked, hunks, files));
}

/// A job without its reason.
spec fn unreasoned_job(job: PatchJobView) -> PatchJobView {
    PatchJobView { reason: None, ..job }
}

/// A state without the reason that the request gives.
spec fn unreasoned_state(state: ApplyPatchStateView) -> ApplyPatchStateView {
    match state {
        ApplyPatchStateView::ParsingThreadId { connection_id, patch, cwd, .. } => {
            ApplyPatchStateView::ParsingThreadId { connection_id, patch, cwd, reason: None }
        },
        ApplyPatchStateView::FindingThread { job } => ApplyPatchStateView::FindingThread {
            job: unreasoned_job(job),
        },
        ApplyPatchStateView::ParsingPatch { job } => ApplyPatchStateView::ParsingPatch {
            job: unreasoned_job(job),
        },
        ApplyPatchStateView::ResolvingCwd { job, hunks } => ApplyPatchStateView::ResolvingCwd {
            job: unreasoned_job(job),
            hunks,
        },
        ApplyPatchStateView::ResolvingPaths { job, hunks, location } => {
            ApplyPatchStateView::ResolvingPaths { job: unreasoned_job(job), hunks, location }
        },
        _ => state,
    }
}

proof fn lemma_reason_stays_aside<F>(left: PatchRun<F>, right: PatchRun<F>, count: int)
    requires
        left.connection_id == right.connection_id,
        left.params == (CodexApplyPatchParamsView { reason: left.params.reason, ..right.params }),
        left.events == right.events,
        0 <= count <= left.events.len(),
    ensures
        unreasoned_state(left.state(count)) == unreasoned_state(right.state(count)),
    decreases count,
{
    if count > 0 {
        lemma_reason_stays_aside(left, right, count - 1);
    }
}

/// The reason that a request gives reaches the client and nothing else: whatever
/// is done for two requests that differ in it alone is the same, but for the
/// reason that the client is told.
pub proof fn law_reason_reaches_the_client_only<F>(
    left: PatchRun<F>,
    right: PatchRun<F>,
    index: int,
)
    requires
        left.connection_id == right.connection_id,
        left.params == (CodexApplyPatchParamsView { reason: left.params.reason, ..right.params }),
        left.events == right.events,
        left.has(index),
    ensures
        right.action(index) == match left.action(index) {
            ApplyPatchActionView::RequestApproval { connection_id, thread_id, params } => {
                ApplyPatchActionView::RequestApproval {
                    connection_id,
                    thread_id,
                    params: FileChangeRequestApprovalParamsView {
                        reason: right.params.reason,
                        ..params
                    },
                }
            },
            action => action,
        },
{
    lemma_reason_stays_aside(left, right, index);
    lemma_inv(right, index);
}

/// The client is asked about a thread that exists, on the connection that made
/// the request, with the reason that was given, and without reference to a
/// turn.
pub proof fn law_approval_request_is_about_the_thread<F>(run: PatchRun<F>, index: int)
    requires
        run.has(index),
        run.action(index) is RequestApproval,
    ensures
        run.action(index) matches ApplyPatchActionView::RequestApproval {
            connection_id,
            thread_id,
            params,
        } && {
            &&& connection_id == run.connection_id
            &&& params.thread_id == thread_id
            &&& params.turn_id.len() == 0
            &&& params.reason == run.params.reason
            &&& params.grant_root is None
            &&& exists|identified: int, found: int|
                0 <= identified < found < index && #[trigger] run.identifies_at(
                    identified,
                    thread_id,
                ) && #[trigger] run.finds_at(found)
        },
{
    lemma_inv(run, index);
}

/// A request that names a thread, a patch or a working directory that cannot
/// be used is answered before the client is asked and before anything is
/// written.
pub proof fn law_bad_request_disturbs_nobody<F>(run: PatchRun<F>, index: int, other: int)
    requires
        run.has(index),
        run.has(other),
        run.action(index) is Finish,
        rank(run.state(index)) < rank(
            ApplyPatchStateView::AwaitingApproval {
                patch: Seq::empty(),
                location: Seq::empty(),
                file_changes: Seq::empty(),
            },
        ),
    ensures
        !(run.action(other) is RequestApproval),
        !(run.action(other) is WritePatch),
{
    if other < index {
        lemma_rank_never_falls(run, other, index);
        if run.action(other) is RequestApproval {
            lemma_actions_climb(run, other, index);
            assert(run.state(other + 1) is AwaitingApproval);
            lemma_rank_never_falls(run, other + 1, index);
        }
    } else if index < other {
        assert(run.state(index + 1) is Finished);
        lemma_rank_never_falls(run, index + 1, other);
    }
}

/// Success is owed: when everything that is asked for is reported done and the
/// client approves, the patch is written and the request is answered with the
/// touched files.
pub proof fn law_approved_patch_is_applied<F>(
    run: PatchRun<F>,
    thread_id: Seq<char>,
    hunks: usize,
    location: Seq<char>,
    files: Seq<HunkFilesView>,
    stamp: ApprovalStamp,
    decision: apply_patch::FileChangeApprovalDecision,
    filesystem: F,
)
    requires
        hunks > 0,
        files.len() == hunks,
        apply_patch::accepts(decision),
        run.events == seq![
            ApplyPatchEventView::ThreadIdParsed(Ok(thread_id)),
            ApplyPatchEventView::ThreadLookedUp { found: true },
            ApplyPatchEventView::PatchParsed(Ok(hunks)),
            ApplyPatchEventView::CwdResolved(Ok(location)),
            ApplyPatchEventView::PathsResolved { hunks: files, stamp },
            ApplyPatchEventView::ApprovalReplied(ApprovalReplyView::Decided(decision)),
            ApplyPatchEventView::FilesystemOpened(Some(filesystem)),
            ApplyPatchEventView::PatchWritten(Ok(())),
        ],
    ensures
        run.action(6) == (ApplyPatchActionView::<F>::WritePatch {
            patch: run.params.patch,
            location,
            filesystem,
            sandbox: None,
        }),
        run.action(7) == apply_patch::answered::<F>(true, apply_patch::touched_files(files)).1,
{
    assert(run.state(0) is ParsingThreadId);
    assert(run.state(1) is FindingThread);
    assert(run.state(2) is ParsingPatch);
    assert(run.state(3) is ResolvingCwd);
    assert(run.state(4) is ResolvingPaths);
    assert(run.state(5) is AwaitingApproval);
    assert(run.state(6) is OpeningFilesystem);
    assert(run.state(7) is WritingPatch);
}

} // verus!
