//! The course of a patch request: what is asked of the server after each report,
//! said in terms of the request and of what was reported before.
use crate::apply_patch;
use crate::apply_patch::{
    ApplyPatchActionView, ApplyPatchEventView, ApplyPatchStateView, ApprovalReplyView,
    FileChangeApprovalDecision, FileChangeRequestApprovalParamsView, HunkFiles, HunkFilesView,
    PatchJobView,
};
use crate::error::JSONRPCErrorErrorView;
use crate::output;
use crate::patch_laws::PatchRun;
use crate::protocol::{CodexApplyPatchParamsView, CodexApplyPatchResponseView, ConnectionId};
use crate::stamp;
use crate::stamp::ApprovalStamp;
use vstd::prelude::*;

verus! {

/// What is reported for a patch that can be applied and is approved.
pub struct PatchCourse<F> {
    pub thread_id: Seq<char>,
    pub hunks: usize,
    pub location: Seq<char>,
    pub files: Seq<HunkFilesView>,
    pub stamp: ApprovalStamp,
    pub decision: FileChangeApprovalDecision,
    pub filesystem: F,
}

impl<F> PatchCourse<F> {
    /// The report at `index`, counted from zero.
    pub open spec fn report(self, index: int) -> ApplyPatchEventView<F> {
        if index == 0 {
            ApplyPatchEventView::ThreadIdParsed(Ok(self.thread_id))
        } else if index == 1 {
            ApplyPatchEventView::ThreadLookedUp { found: true }
        } else if index == 2 {
            ApplyPatchEventView::PatchParsed(Ok(self.hunks))
        } else if index == 3 {
            ApplyPatchEventView::CwdResolved(Ok(self.location))
        } else if index == 4 {
            ApplyPatchEventView::PathsResolved { hunks: self.files, stamp: self.stamp }
        } else if index == 5 {
            ApplyPatchEventView::ApprovalReplied(ApprovalReplyView::Decided(self.decision))
        } else if index == 6 {
            ApplyPatchEventView::FilesystemOpened(Some(self.filesystem))
        } else {
            ApplyPatchEventView::PatchWritten(Ok(()))
        }
    }

    /// Whether the first `count` reports of a run, of eight at most, are these.
    pub open spec fn leads(self, run: PatchRun<F>, count: int) -> bool {
        &&& 0 <= count <= 8
        &&& count <= run.events.len()
        &&& self.hunks > 0
        &&& self.files.len() == self.hunks
        &&& self.decision is Accept || self.decision is AcceptForSession
        &&& forall|i: int| 0 <= i < count ==> #[trigger] run.events[i] == self.report(i)
    }
}

spec fn job_of<F>(run: PatchRun<F>, course: PatchCourse<F>) -> PatchJobView {
    PatchJobView {
        connection_id: run.connection_id,
        thread_id: course.thread_id,
        patch: run.params.patch,
        cwd: run.params.cwd,
        reason: run.params.reason,
    }
}

/// Where the request stands after `count` reports of a course.
spec fn standing<F>(run: PatchRun<F>, course: PatchCourse<F>, count: int) -> ApplyPatchStateView {
    let job = job_of(run, course);
    let patch = run.params.patch;
    let location = course.location;
    let hunks = course.hunks;
    let file_changes = apply_patch::touched_files(course.files);
    if count == 0 {
        ApplyPatchStateView::ParsingThreadId {
            connection_id: run.connection_id,
            patch,
            cwd: run.params.cwd,
            reason: run.params.reason,
        }
    } else if count == 1 {
        ApplyPatchStateView::FindingThread { job }
    } else if count == 2 {
        ApplyPatchStateView::ParsingPatch { job }
    } else if count == 3 {
        ApplyPatchStateView::ResolvingCwd { job, hunks }
    } else if count == 4 {
        ApplyPatchStateView::ResolvingPaths { job, hunks, location }
    } else if count == 5 {
        ApplyPatchStateView::AwaitingApproval { patch, location, file_changes }
    } else if count == 6 {
        ApplyPatchStateView::OpeningFilesystem { patch, location, file_changes }
    } else if count == 7 {
        ApplyPatchStateView::WritingPatch { file_changes }
    } else {
        ApplyPatchStateView::Finished
    }
}

proof fn lemma_standing<F>(run: PatchRun<F>, course: PatchCourse<F>, count: int)
    requires
        course.leads(run, count),
    ensures
        run.state(count) == standing(run, course, count),
    decreases count,
{
    if count > 0 {
        lemma_standing(run, course, count - 1);
        assert(run.events[count - 1] == course.report(count - 1));
    }
}

/// A request begins by having its own thread id parsed. While all goes well, the
/// thread of that id is looked up; the patch of the request is parsed; the
/// working directory that the request gives, or else that of the thread, is
/// resolved; the files are resolved in it; the connection that made the request
/// is asked to approve; the filesystem is opened; the patch of the request is
/// written there; and the answer is that it was applied, with the touched files.
pub proof fn law_course_of_an_approved_patch<F>(
    run: PatchRun<F>,
    course: PatchCourse<F>,
    count: int,
)
    requires
        course.leads(run, count),
    ensures
        apply_patch::opening::<F>(run.connection_id, run.params).1
            == (ApplyPatchActionView::<F>::ParseThreadId { id: run.params.thread_id }),
        count >= 1 ==> run.action(0) == (ApplyPatchActionView::<F>::FindThread {
            thread_id: course.thread_id,
        }),
        count >= 2 ==> run.action(1) == (ApplyPatchActionView::<F>::ParsePatch {
            patch: run.params.patch,
        }),
        count >= 3 ==> run.action(2) == match run.params.cwd {
            Some(cwd) => ApplyPatchActionView::<F>::ResolveCwd { cwd },
            None => ApplyPatchActionView::<F>::ResolveThreadCwd { thread_id: course.thread_id },
        },
        count >= 4 ==> run.action(3) == (ApplyPatchActionView::<F>::ResolvePaths {
            location: course.location,
        }),
        count >= 5 ==> run.action(4) == (ApplyPatchActionView::<F>::RequestApproval {
            connection_id: run.connection_id,
            thread_id: course.thread_id,
            params: FileChangeRequestApprovalParamsView {
                thread_id: course.thread_id,
                turn_id: Seq::empty(),
                item_id: "codex-apply-patch-"@ + stamp::hyphenated(course.stamp.uuid),
                started_at_ms: course.stamp.started_at_ms,
                reason: run.params.reason,
                grant_root: None,
            },
        }),
        count >= 6 ==> run.action(5) == ApplyPatchActionView::<F>::OpenFilesystem,
        count >= 7 ==> run.action(6) == (ApplyPatchActionView::<F>::WritePatch {
            patch: run.params.patch,
            location: course.location,
            filesystem: course.filesystem,
            sandbox: None,
        }),
        count >= 8 ==> run.action(7) == ApplyPatchActionView::<F>::Finish(
            Ok(
                CodexApplyPatchResponseView {
                    applied: true,
                    file_changes: apply_patch::touched_files(course.files),
                },
            ),
        ),
    decreases count,
{
    if count > 0 {
        law_course_of_an_approved_patch(run, course, count - 1);
        lemma_standing(run, course, count - 1);
        assert(run.events[count - 1] == course.report(count - 1));
    }
}

/// What ends a request early ends it with its own answer: an id, a thread, a
/// patch, a working directory or a write that fails blames the request, in words
/// that begin alike and quote the cause; an approval request that fails, or a
/// missing filesystem, blames the server; an error of the client is passed on as
/// it came; and a patch that is declined or cancelled was not applied.
pub proof fn law_early_ends_of_a_patch_request<F>(
    run: PatchRun<F>,
    course: PatchCourse<F>,
    count: int,
    why: Seq<char>,
    failure: JSONRPCErrorErrorView,
    unwritten: apply_patch::WriteFailureView,
)
    requires
        course.leads(run, count),
        run.has(count),
    ensures
        count == 0 && run.events[count] == ApplyPatchEventView::<F>::ThreadIdParsed(Err(why))
            ==> run.action(count) == blames_request::<F>("invalid thread id: "@ + why),
        count == 1 && run.events[count] == (ApplyPatchEventView::<F>::ThreadLookedUp {
            found: false,
        }) ==> run.action(count) == blames_request::<F>("thread not found: "@ + course.thread_id),
        count == 2 && run.events[count] == ApplyPatchEventView::<F>::PatchParsed(Err(why))
            ==> run.action(count) == blames_request::<F>("invalid patch: "@ + why),
        count == 2 && run.events[count] == ApplyPatchEventView::<F>::PatchParsed(Ok(0))
            ==> run.action(count) == blames_request::<F>("patch contains no file changes"@),
        count == 3 && run.events[count] == ApplyPatchEventView::<F>::CwdResolved(Err(why))
            ==> run.action(count) == blames_request::<F>("invalid cwd: "@ + why),
        count == 5 && run.events[count] == ApplyPatchEventView::<F>::ApprovalReplied(
            ApprovalReplyView::Unreadable(why),
        ) ==> run.action(count) == blames_server::<F>(
            "failed to deserialize FileChangeRequestApprovalResponse: "@ + why,
        ),
        count == 5 && run.events[count] == ApplyPatchEventView::<F>::ApprovalReplied(
            ApprovalReplyView::Lost(why),
        ) ==> run.action(count) == blames_server::<F>(
            "file change approval request failed: "@ + why,
        ),
        count == 5 && run.events[count] == ApplyPatchEventView::<F>::ApprovalReplied(
            ApprovalReplyView::Refused(failure),
        ) ==> run.action(count) == ApplyPatchActionView::<F>::Finish(Err(failure)),
        count == 5 && (run.events[count] == ApplyPatchEventView::<F>::ApprovalReplied(
            ApprovalReplyView::Decided(FileChangeApprovalDecision::Decline),
        ) || run.events[count] == ApplyPatchEventView::<F>::ApprovalReplied(
            ApprovalReplyView::Decided(FileChangeApprovalDecision::Cancel),
        )) ==> run.action(count) == ApplyPatchActionView::<F>::Finish(
            Ok(
                CodexApplyPatchResponseView {
                    applied: false,
                    file_changes: apply_patch::touched_files(course.files),
                },
            ),
        ),
        count == 6 && run.events[count] == ApplyPatchEventView::<F>::FilesystemOpened(None)
            ==> run.action(count) == blames_server::<F>("local filesystem is not configured"@),
        count == 7 && run.events[count] == ApplyPatchEventView::<F>::PatchWritten(Err(unwritten))
            ==> {
            let stderr = output::trimmed(output::utf8_lossy(unwritten.stderr));
            run.action(count) == blames_request::<F>(
                if stderr.len() == 0 {
                    "failed to apply patch: "@ + unwritten.error
                } else {
                    "failed to apply patch: "@ + unwritten.error + ": "@ + stderr
                },
            )
        },
{
    lemma_standing(run, course, count);
}

/// A report that is not about what was last asked for leads to nothing and
/// leaves the request where it is; and so does any report once it is answered.
pub proof fn law_patch_reports_out_of_turn_lead_nowhere<F>(
    run: PatchRun<F>,
    course: PatchCourse<F>,
    count: int,
)
    requires
        course.leads(run, count),
        run.has(count),
        count == 0 ==> !(run.events[count] is ThreadIdParsed),
        count == 1 ==> !(run.events[count] is ThreadLookedUp),
        count == 2 ==> !(run.events[count] is PatchParsed),
        count == 3 ==> !(run.events[count] is CwdResolved),
        count == 4 ==> (run.events[count] matches ApplyPatchEventView::PathsResolved { hunks, .. }
            ==> hunks.len() != course.hunks),
        count == 5 ==> !(run.events[count] is ApprovalReplied),
        count == 6 ==> !(run.events[count] is FilesystemOpened),
        count == 7 ==> !(run.events[count] is PatchWritten),
    ensures
        run.action(count) is Nothing,
        run.state(count + 1) == run.state(count),
{
    lemma_standing(run, course, count);
}

/// The answer with the code of an invalid request.
pub open spec fn blames_request<F>(message: Seq<char>) -> ApplyPatchActionView<F> {
    ApplyPatchActionView::Finish(
        Err(JSONRPCErrorErrorView { code: (-32600) as i64, message, data: None }),
    )
}

/// The answer with the code of an internal error.
pub open spec fn blames_server<F>(message: Seq<char>) -> ApplyPatchActionView<F> {
    ApplyPatchActionView::Finish(
        Err(JSONRPCErrorErrorView { code: (-32603) as i64, message, data: None }),
    )
}

/// What the request knows of itself, wherever it stands.
spec fn keeps_request<F>(run: PatchRun<F>, state: ApplyPatchStateView) -> bool {
    match state {
        ApplyPatchStateView::ParsingThreadId { connection_id, patch, cwd, reason } => {
            &&& connection_id == run.connection_id
            &&& patch == run.params.patch
            &&& cwd == run.params.cwd
            &&& reason == run.params.reason
        },
        ApplyPatchStateView::FindingThread { job }
        | ApplyPatchStateView::ParsingPatch { job }
        | ApplyPatchStateView::ResolvingCwd { job, .. }
        | ApplyPatchStateView::ResolvingPaths { job, .. } => {
            &&& job.connection_id == run.connection_id
            &&& job.patch == run.params.patch
            &&& job.cwd == run.params.cwd
            &&& job.reason == run.params.reason
        },
        ApplyPatchStateView::AwaitingApproval { patch, .. }
        | ApplyPatchStateView::OpeningFilesystem { patch, .. } => patch == run.params.patch,
        _ => true,
    }
}

proof fn lemma_keeps_request<F>(run: PatchRun<F>, count: int)
    requires
        0 <= count <= run.events.len(),
    ensures
        keeps_request(run, run.state(count)),
    decreases count,
{
    if count > 0 {
        lemma_keeps_request(run, count - 1);
    }
}

/// In every run, what is parsed as a patch is the patch of the request, and so
/// is what is written; the thread that is looked up is the one whose id was just
/// parsed; and no thread id but that of the request is ever parsed.
pub proof fn law_parsed_patch_is_the_written_one<F>(run: PatchRun<F>, index: int)
    requires
        run.has(index),
    ensures
        run.action(index) matches ApplyPatchActionView::ParsePatch { patch } ==> patch
            == run.params.patch,
        run.action(index) matches ApplyPatchActionView::WritePatch { patch, .. } ==> patch
            == run.params.patch,
        run.action(index) matches ApplyPatchActionView::FindThread { thread_id }
            ==> run.events[index] == ApplyPatchEventView::<F>::ThreadIdParsed(Ok(thread_id)),
        run.action(index) matches ApplyPatchActionView::ResolveCwd { cwd } ==> run.params.cwd
            == Some(cwd),
        run.action(index) matches ApplyPatchActionView::ResolvePaths { location }
            ==> run.events[index] == ApplyPatchEventView::<F>::CwdResolved(Ok(location)),
        !(run.action(index) is ParseThreadId),
{
    lemma_keeps_request(run, index);
}

/// A request begins with the thread id that it gives, whoever makes it.
pub proof fn law_given_thread_id_is_parsed<F>(
    connection_id: ConnectionId,
    params: CodexApplyPatchParamsView,
)
    ensures
        apply_patch::opening::<F>(connection_id, params).1
            == (ApplyPatchActionView::<F>::ParseThreadId { id: params.thread_id }),
{
}

/// Only the two accepting decisions let a change happen.
pub proof fn law_only_acceptance_lets_a_change_happen(decision: FileChangeApprovalDecision)
    ensures
        apply_patch::accepts(decision) <==> decision == FileChangeApprovalDecision::Accept
            || decision == FileChangeApprovalDecision::AcceptForSession,
{
}

/// One more hunk adds the path of its file to the list, and behind it the path
/// that the file is moved to, if it is. Each is the native path if it could be
/// resolved, and the path in the patch only if not.
pub proof fn law_list_grows_hunk_by_hunk(hunks: Seq<HunkFilesView>, hunk: HunkFilesView)
    ensures
        apply_patch::touched_files(Seq::empty()) == Seq::<Seq<char>>::empty(),
        ({
            let before = apply_patch::touched_files(hunks);
            let after = apply_patch::touched_files(hunks.push(hunk));
            &&& after.len() == before.len() + (if hunk.moved_to is Some {
                2int
            } else {
                1int
            })
            &&& after.take(before.len() as int) == before
            &&& hunk.file.resolved matches Some(native) ==> after[before.len() as int] == native
            &&& hunk.file.resolved is None ==> after[before.len() as int] == hunk.file.path
            &&& hunk.moved_to matches Some(goal) ==> {
                &&& goal.resolved matches Some(native) ==> after[before.len() as int + 1] == native
                &&& goal.resolved is None ==> after[before.len() as int + 1] == goal.path
            }
        }),
{
    assert(hunks.push(hunk).drop_last() =~= hunks);
    assert(apply_patch::touched_files(hunks.push(hunk)).take(
        apply_patch::touched_files(hunks).len() as int,
    ) =~= apply_patch::touched_files(hunks));
}

/// If no hunk moves its file, the list has one path for each hunk, in order: the
/// native one if it could be resolved, and the one in the patch only if not.
pub proof fn law_unmoved_files_are_listed_one_by_one(hunks: Seq<HunkFilesView>, i: int)
    requires
        forall|j: int| 0 <= j < hunks.len() ==> (#[trigger] hunks[j]).moved_to is None,
        0 <= i < hunks.len(),
    ensures
        apply_patch::touched_files(hunks).len() == hunks.len(),
        hunks[i].file.resolved matches Some(native) ==> apply_patch::touched_files(hunks)[i]
            == native,
        hunks[i].file.resolved is None ==> apply_patch::touched_files(hunks)[i]
            == hunks[i].file.path,
    decreases hunks.len(),
{
    let rest = hunks.drop_last();
    assert(hunks[hunks.len() - 1].moved_to is None);
    if rest.len() == 0 {
        assert(apply_patch::touched_files(rest) =~= Seq::empty());
    } else {
        assert forall|j: int| 0 <= j < rest.len() implies (#[trigger] rest[j]).moved_to is None by {
            assert(rest[j] == hunks[j]);
        }
        law_unmoved_files_are_listed_one_by_one(
            rest,
            if i < rest.len() {
                i
            } else {
                0
            },
        );
    }
}

/// A list of files names a path: the native one if it could be resolved, and the
/// one in the patch only if not.
pub open spec fn names(files: Seq<Seq<char>>, path: apply_patch::HunkPathView) -> bool {
    &&& path.resolved matches Some(native) ==> files.contains(native)
    &&& path.resolved is None ==> files.contains(path.path)
}

proof fn lemma_list_names_every_path(hunks: Seq<HunkFilesView>, i: int)
    requires
        0 <= i < hunks.len(),
    ensures
        names(apply_patch::touched_files(hunks), hunks[i].file),
        hunks[i].moved_to matches Some(goal) ==> names(apply_patch::touched_files(hunks), goal),
    decreases hunks.len(),
{
    let rest = hunks.drop_last();
    let before = apply_patch::touched_files(rest);
    let after = apply_patch::touched_files(hunks);
    let last = hunks.last();
    assert(rest.push(last) =~= hunks);
    law_list_grows_hunk_by_hunk(rest, last);
    if i < rest.len() {
        assert(rest[i] == hunks[i]);
        lemma_list_names_every_path(rest, i);
        assert forall|path: Seq<char>| before.contains(path) implies after.contains(path) by {
            let k = choose|k: int| 0 <= k < before.len() && before[k] == path;
            assert(after.take(before.len() as int)[k] == after[k]);
            assert(after[k] == path);
        }
    } else {
        assert(after.contains(after[before.len() as int]));
        if last.moved_to is Some {
            assert(after.contains(after[before.len() as int + 1]));
        }
    }
}

/// Every response lists the files that were reported for the patch, all of them
/// and under the path that was resolved for each, if there is one: for each hunk
/// that of its file and, if the file is moved, that of where it goes.
pub proof fn law_response_lists_native_paths<F>(run: PatchRun<F>, index: int)
    requires
        run.has(index),
        run.action(index) matches ApplyPatchActionView::Finish(Ok(_)),
    ensures
        run.action(index) matches ApplyPatchActionView::Finish(Ok(response)) && exists|asked: int|
            0 <= asked < index && run.action(asked) is RequestApproval && (
            #[trigger] run.events[asked] matches ApplyPatchEventView::PathsResolved { hunks, .. }
                && response.file_changes.len() >= hunks.len() && forall|i: int|
                0 <= i < hunks.len() ==> {
                    &&& names(response.file_changes, (#[trigger] hunks[i]).file)
                    &&& hunks[i].moved_to matches Some(goal) ==> names(response.file_changes, goal)
                }),
{
    crate::patch_laws::law_response_lists_the_touched_files(run, index);
    let files = (run.action(index)->Finish_0->Ok_0).file_changes;
    let (parsed, asked, hunks) = choose|parsed: int, asked: int, hunks: Seq<HunkFilesView>|
        0 <= parsed < asked < index && #[trigger] run.parses_at(parsed, hunks.len() as int)
            && #[trigger] run.lists_at(asked, hunks, files);
    apply_patch::law_every_hunk_touches_a_file(hunks);
    assert forall|i: int| 0 <= i < hunks.len() implies {
        &&& names(files, (#[trigger] hunks[i]).file)
        &&& hunks[i].moved_to matches Some(goal) ==> names(files, goal)
    } by {
        lemma_list_names_every_path(hunks, i);
    }
    assert(run.events[asked] matches ApplyPatchEventView::PathsResolved { hunks: named, .. } && named
        == hunks);
}

/// A list of hunks is modelled hunk by hunk, path by path.
pub proof fn law_hunks_are_modelled_whole(hunks: Seq<HunkFiles>)
    ensures
        apply_patch::hunk_views(hunks).len() == hunks.len(),
        forall|i: int|
            0 <= i < hunks.len() ==> {
                let model = #[trigger] apply_patch::hunk_views(hunks)[i];
                let hunk = hunks[i];
                &&& model.file.path == hunk.file.path@
                &&& model.file.resolved == hunk.file.resolved.deep_view()
                &&& model.moved_to is Some <==> hunk.moved_to is Some
                &&& hunk.moved_to matches Some(goal) ==> model.moved_to matches Some(modelled)
                    && modelled.path == goal.path@ && modelled.resolved == goal.resolved.deep_view()
            },
{
}

} // verus!
