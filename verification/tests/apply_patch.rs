use codex_processor::apply_patch::{
    apply_patch, list_touched_files, ApplyPatchAction, ApplyPatchEvent, ApplyPatchState,
    ApprovalReply, FileChangeApprovalDecision, FileChangeRequestApprovalParams, HunkFiles,
    HunkPath, WriteFailure,
};
use codex_processor::error::{
    JSONRPCErrorError, INTERNAL_ERROR_CODE, INVALID_REQUEST_ERROR_CODE,
};
use codex_processor::protocol::{CodexApplyPatchParams, CodexApplyPatchResponse, ConnectionId};
use codex_processor::stamp::ApprovalStamp;

/// The filesystem is known by a number.
type Event = ApplyPatchEvent<u32>;
type Action = ApplyPatchAction<u32>;

const STAMP: ApprovalStamp = ApprovalStamp {
    uuid: 0xa1a2a3a4_b1b2_41c2_91d2_d3d4d5d6d7d8,
    started_at_ms: 1_700_000_000_123,
};

fn params(cwd: Option<&str>) -> CodexApplyPatchParams {
    CodexApplyPatchParams {
        thread_id: "T1".to_string(),
        patch: "*** Begin Patch".to_string(),
        cwd: cwd.map(|c| c.to_string()),
        reason: Some("because".to_string()),
    }
}

fn open(cwd: Option<&str>) -> (ApplyPatchState, Action) {
    apply_patch(ConnectionId(7), params(cwd))
}

fn path(path: &str, resolved: Option<&str>) -> HunkPath {
    HunkPath {
        path: path.to_string(),
        resolved: resolved.map(|native| native.to_string()),
    }
}

fn hunks() -> Vec<HunkFiles> {
    vec![
        HunkFiles {
            file: path("a.rs", Some("/w/a.rs")),
            moved_to: None,
        },
        HunkFiles {
            file: path("b.rs", None),
            moved_to: None,
        },
    ]
}

fn files() -> Vec<String> {
    vec!["/w/a.rs".to_string(), "b.rs".to_string()]
}

fn finding() -> ApplyPatchState {
    open(None)
        .0
        .step(Event::ThreadIdParsed(Ok("t1".to_string())))
        .0
}

fn parsing() -> ApplyPatchState {
    finding()
        .step(Event::ThreadLookedUp { found: true })
        .0
}

fn resolving_paths() -> ApplyPatchState {
    parsing()
        .step(Event::PatchParsed(Ok(2)))
        .0
        .step(Event::CwdResolved(Ok("file:///w".to_string())))
        .0
}

fn awaiting() -> ApplyPatchState {
    resolving_paths()
        .step(Event::PathsResolved {
            hunks: hunks(),
            stamp: STAMP,
        })
        .0
}

fn decide(decision: FileChangeApprovalDecision) -> (ApplyPatchState, Action) {
    awaiting().step(Event::ApprovalReplied(ApprovalReply::Decided(
        decision,
    )))
}

fn writing() -> ApplyPatchState {
    decide(FileChangeApprovalDecision::Accept)
        .0
        .step(Event::FilesystemOpened(Some(9)))
        .0
}

fn invalid(message: &str) -> Action {
    Action::Finish(Err(JSONRPCErrorError {
        code: INVALID_REQUEST_ERROR_CODE,
        message: message.to_string(),
        data: None,
    }))
}

fn internal(message: &str) -> Action {
    Action::Finish(Err(JSONRPCErrorError {
        code: INTERNAL_ERROR_CODE,
        message: message.to_string(),
        data: None,
    }))
}

#[test]
fn approved_patch_is_applied() {
    let (state, action) = open(None);
    assert_eq!(
        action,
        Action::ParseThreadId {
            id: "T1".to_string()
        }
    );
    let (state, action) = state.step(Event::ThreadIdParsed(Ok("t1".to_string())));
    assert_eq!(
        action,
        Action::FindThread {
            thread_id: "t1".to_string()
        }
    );
    let (state, action) = state.step(Event::ThreadLookedUp { found: true });
    assert_eq!(
        action,
        Action::ParsePatch {
            patch: "*** Begin Patch".to_string()
        }
    );
    let (state, action) = state.step(Event::PatchParsed(Ok(2)));
    assert_eq!(
        action,
        Action::ResolveThreadCwd {
            thread_id: "t1".to_string()
        }
    );
    let (state, action) = state.step(Event::CwdResolved(Ok("file:///w".to_string())));
    assert_eq!(
        action,
        Action::ResolvePaths {
            location: "file:///w".to_string()
        }
    );
    let (state, action) = state.step(Event::PathsResolved {
        hunks: hunks(),
        stamp: STAMP,
    });
    assert_eq!(
        action,
        Action::RequestApproval {
            connection_id: ConnectionId(7),
            thread_id: "t1".to_string(),
            params: FileChangeRequestApprovalParams {
                thread_id: "t1".to_string(),
                turn_id: String::new(),
                item_id: "codex-apply-patch-a1a2a3a4-b1b2-41c2-91d2-d3d4d5d6d7d8".to_string(),
                started_at_ms: 1_700_000_000_123,
                reason: Some("because".to_string()),
                grant_root: None,
            },
        }
    );
    let (state, action) = state.step(Event::ApprovalReplied(ApprovalReply::Decided(
        FileChangeApprovalDecision::Accept,
    )));
    assert_eq!(action, Action::OpenFilesystem);
    let (state, action) = state.step(Event::FilesystemOpened(Some(9)));
    assert_eq!(
        action,
        Action::WritePatch {
            patch: "*** Begin Patch".to_string(),
            location: "file:///w".to_string(),
            filesystem: 9,
            sandbox: None,
        }
    );
    let (state, action) = state.step(Event::PatchWritten(Ok(())));
    assert_eq!(
        action,
        Action::Finish(Ok(CodexApplyPatchResponse {
            applied: true,
            file_changes: files(),
        }))
    );
    assert_eq!(state, ApplyPatchState::Finished);
}

#[test]
fn approval_for_the_session_counts_as_approval() {
    let (_, action) = decide(FileChangeApprovalDecision::AcceptForSession);
    assert_eq!(action, Action::OpenFilesystem);
    assert!(FileChangeApprovalDecision::Accept.is_approval());
    assert!(FileChangeApprovalDecision::AcceptForSession.is_approval());
    assert!(!FileChangeApprovalDecision::Decline.is_approval());
    assert!(!FileChangeApprovalDecision::Cancel.is_approval());
}

#[test]
fn declined_or_cancelled_patch_is_not_applied() {
    for decision in [
        FileChangeApprovalDecision::Decline,
        FileChangeApprovalDecision::Cancel,
    ] {
        let (state, action) = decide(decision);
        assert_eq!(
            action,
            Action::Finish(Ok(CodexApplyPatchResponse {
                applied: false,
                file_changes: files(),
            }))
        );
        let (state, action) = state.step(Event::ApprovalReplied(ApprovalReply::Decided(
            FileChangeApprovalDecision::Accept,
        )));
        assert_eq!(action, Action::Nothing);
        let (_, action) = state.step(Event::FilesystemOpened(Some(9)));
        assert_eq!(action, Action::Nothing);
    }
}

#[test]
fn malformed_thread_id_is_refused() {
    let (_, action) = open(None)
        .0
        .step(Event::ThreadIdParsed(Err("bad length".to_string())));
    assert_eq!(action, invalid("invalid thread id: bad length"));
}

#[test]
fn unknown_thread_is_refused() {
    let (_, action) = finding().step(Event::ThreadLookedUp { found: false });
    assert_eq!(action, invalid("thread not found: t1"));
}

#[test]
fn malformed_patch_is_refused() {
    let (_, action) = parsing().step(Event::PatchParsed(Err("no end".to_string())));
    assert_eq!(action, invalid("invalid patch: no end"));
}

#[test]
fn empty_patch_is_refused() {
    let (_, action) = parsing().step(Event::PatchParsed(Ok(0)));
    assert_eq!(action, invalid("patch contains no file changes"));
}

#[test]
fn given_cwd_is_resolved_and_may_be_refused() {
    let state = open(Some("/w"))
        .0
        .step(Event::ThreadIdParsed(Ok("t1".to_string())))
        .0
        .step(Event::ThreadLookedUp { found: true })
        .0;
    let (state, action) = state.step(Event::PatchParsed(Ok(1)));
    assert_eq!(
        action,
        Action::ResolveCwd {
            cwd: "/w".to_string()
        }
    );
    let (_, action) = state.step(Event::CwdResolved(Err("relative".to_string())));
    assert_eq!(action, invalid("invalid cwd: relative"));
}

#[test]
fn failed_approval_requests_are_reported() {
    let (_, action) = awaiting().step(Event::ApprovalReplied(
        ApprovalReply::Unreadable("missing field".to_string()),
    ));
    assert_eq!(
        action,
        internal("failed to deserialize FileChangeRequestApprovalResponse: missing field")
    );
    let (_, action) = awaiting().step(Event::ApprovalReplied(ApprovalReply::Lost(
        "channel closed".to_string(),
    )));
    assert_eq!(
        action,
        internal("file change approval request failed: channel closed")
    );
    let failure = JSONRPCErrorError {
        code: 42,
        message: "no".to_string(),
        data: Some("[1]".to_string()),
    };
    let (_, action) = awaiting().step(Event::ApprovalReplied(ApprovalReply::Refused(
        failure.clone(),
    )));
    assert_eq!(action, Action::Finish(Err(failure)));
}

#[test]
fn missing_filesystem_is_reported() {
    let (_, action) = decide(FileChangeApprovalDecision::Accept)
        .0
        .step(Event::FilesystemOpened(None));
    assert_eq!(action, internal("local filesystem is not configured"));
}

#[test]
fn failed_write_is_reported_with_its_error_stream() {
    let fail = |stderr: &[u8]| {
        writing()
            .step(Event::PatchWritten(Err(WriteFailure {
                error: "hunk 1".to_string(),
                stderr: stderr.to_vec(),
            })))
            .1
    };
    assert_eq!(fail(b""), invalid("failed to apply patch: hunk 1"));
    assert_eq!(fail(b" \n\t"), invalid("failed to apply patch: hunk 1"));
    assert_eq!(
        fail(b"\n no such file \xff\n"),
        invalid("failed to apply patch: hunk 1: no such file \u{fffd}")
    );
}

#[test]
fn events_out_of_turn_change_nothing() {
    let (state, action) = finding().step(Event::ApprovalReplied(
        ApprovalReply::Decided(FileChangeApprovalDecision::Accept),
    ));
    assert_eq!(action, Action::Nothing);
    assert_eq!(state, finding());
    let (state, action) = resolving_paths().step(Event::PathsResolved {
        hunks: vec![],
        stamp: STAMP,
    });
    assert_eq!(action, Action::Nothing);
    assert_eq!(state, resolving_paths());
}

#[test]
fn resolved_paths_come_with_a_fresh_stamp() {
    let before = codex_processor::clock::now_unix_timestamp_ms();
    let first = Event::paths_resolved(hunks());
    let second = Event::paths_resolved(hunks());
    match (first, second) {
        (
            Event::PathsResolved {
                hunks: reported,
                stamp,
            },
            Event::PathsResolved { stamp: other, .. },
        ) => {
            assert_eq!(reported, hunks());
            assert_ne!(stamp.uuid, other.uuid);
            assert!(stamp.started_at_ms >= before);
        }
        _ => panic!("the paths are reported"),
    }
}

#[test]
fn unresolved_paths_are_listed_as_written() {
    assert_eq!(list_touched_files(hunks()), files());
    assert_eq!(list_touched_files(vec![]), Vec::<String>::new());
}

#[test]
fn moved_file_is_listed_under_both_paths() {
    let moved = vec![
        HunkFiles {
            file: path("a.rs", Some("/w/a.rs")),
            moved_to: Some(path("b.rs", Some("/w/b.rs"))),
        },
        HunkFiles {
            file: path("c.rs", None),
            moved_to: Some(path("d.rs", None)),
        },
    ];
    let listed = ["/w/a.rs", "/w/b.rs", "c.rs", "d.rs"];
    assert_eq!(list_touched_files(moved.clone()), listed);
    let (_, action) = resolving_paths()
        .step(Event::PathsResolved {
            hunks: moved,
            stamp: STAMP,
        })
        .0
        .step(Event::ApprovalReplied(ApprovalReply::Decided(
            FileChangeApprovalDecision::Accept,
        )))
        .0
        .step(Event::FilesystemOpened(Some(9)))
        .0
        .step(Event::PatchWritten(Ok(())));
    assert_eq!(
        action,
        Action::Finish(Ok(CodexApplyPatchResponse {
            applied: true,
            file_changes: listed.map(|file| file.to_string()).to_vec(),
        }))
    );
}

#[test]
fn reason_reaches_the_client_only() {
    let run = |reason: Option<&str>| {
        let mut params = params(Some("/w"));
        params.reason = reason.map(|reason| reason.to_string());
        let (mut state, action) = apply_patch::<u32>(ConnectionId(7), params);
        let mut actions = vec![action];
        for event in [
            Event::ThreadIdParsed(Ok("t1".to_string())),
            Event::ThreadLookedUp { found: true },
            Event::PatchParsed(Ok(2)),
            Event::CwdResolved(Ok("file:///w".to_string())),
            Event::PathsResolved {
                hunks: hunks(),
                stamp: STAMP,
            },
            Event::ApprovalReplied(ApprovalReply::Decided(
                FileChangeApprovalDecision::Accept,
            )),
            Event::FilesystemOpened(Some(9)),
            Event::PatchWritten(Ok(())),
        ] {
            let (next, action) = state.step(event);
            state = next;
            actions.push(action);
        }
        actions
    };
    let (left, right) = (run(Some("because")), run(None));
    assert_eq!(left.len(), right.len());
    for (left, right) in left.into_iter().zip(right) {
        match (left, right) {
            (
                Action::RequestApproval { params: left, .. },
                Action::RequestApproval { params: right, .. },
            ) => {
                assert_eq!(left.reason, Some("because".to_string()));
                assert_eq!(right.reason, None);
            }
            (left, right) => assert_eq!(left, right),
        }
    }
}
