use codex_processor::error::{JSONRPCErrorError, INVALID_REQUEST_ERROR_CODE};
use codex_processor::history::{
    change_text, command_text, compact_history_text, get_history, push_section, FileUpdateChange,
    PendingHistory, ThreadItem, Turn, UserInput,
};
use codex_processor::protocol::{CodexGetHistoryParams, CodexGetHistoryResponse};

fn text(value: &str) -> UserInput {
    UserInput::Text {
        text: value.to_string(),
        text_elements: vec![],
    }
}

fn turn(payload: u32, items: Vec<ThreadItem>) -> Turn<u32> {
    Turn { payload, items }
}

fn agent(value: &str) -> ThreadItem {
    ThreadItem::AgentMessage {
        text: value.to_string(),
    }
}

fn params(mode: Option<&str>) -> CodexGetHistoryParams {
    CodexGetHistoryParams {
        thread_id: "thread-1".to_string(),
        mode: mode.map(|m| m.to_string()),
    }
}

fn sample() -> Vec<Turn<u32>> {
    vec![
        turn(
            1,
            vec![
                ThreadItem::UserMessage {
                    content: vec![text("hello"), UserInput::Other, text("again")],
                },
                ThreadItem::Reasoning {
                    summary: vec!["think".to_string(), "more".to_string()],
                },
                ThreadItem::Plan {
                    text: "do it".to_string(),
                },
            ],
        ),
        turn(2, vec![ThreadItem::Other]),
        turn(
            3,
            vec![
                ThreadItem::CommandExecution {
                    command: "ls".to_string(),
                    aggregated_output: Some("a\nb".to_string()),
                    exit_code: Some(0),
                    status: "Completed".to_string(),
                },
                ThreadItem::FileChange {
                    changes: vec![
                        FileUpdateChange {
                            path: "/w/a.rs".to_string(),
                        },
                        FileUpdateChange {
                            path: "/w/b.rs".to_string(),
                        },
                    ],
                    status: "InProgress".to_string(),
                },
                agent("done"),
            ],
        ),
    ]
}

const SAMPLE_TEXT: &str = "User: hello\n\nUser: again\n\nReasoning: think\n\nReasoning: more\n\nPlan: do it\n\nCommand: $ ls\na\nb\n[Completed exit=0]\n\nFile change: /w/a.rs, /w/b.rs [InProgress]\n\nAssistant: done";

#[test]
fn first_section_has_no_empty_line_before_it() {
    let mut out = String::new();
    push_section(&mut out, "User", "hi");
    assert_eq!(out, "User: hi");
    push_section(&mut out, "Assistant", "hello");
    assert_eq!(out, "User: hi\n\nAssistant: hello");
}

#[test]
fn section_with_empty_body_is_kept() {
    let mut out = String::new();
    push_section(&mut out, "Plan", "");
    assert_eq!(out, "Plan: ");
    push_section(&mut out, "", "");
    assert_eq!(out, "Plan: \n\n: ");
}

#[test]
fn compact_text_shows_every_kind_of_item() {
    assert_eq!(compact_history_text(&sample()), SAMPLE_TEXT);
}

#[test]
fn compact_text_of_nothing_is_empty() {
    assert_eq!(compact_history_text::<u32>(&[]), "");
    assert_eq!(
        compact_history_text(&[turn(
            1,
            vec![
                ThreadItem::Other,
                ThreadItem::UserMessage {
                    content: vec![UserInput::Other]
                },
                ThreadItem::Reasoning { summary: vec![] },
            ]
        )]),
        ""
    );
}

#[test]
fn command_without_output_or_exit_code() {
    assert_eq!(
        command_text("sleep 9", &None, None, "InProgress"),
        "$ sleep 9\n[InProgress]"
    );
}

#[test]
fn command_with_empty_output_keeps_its_line() {
    assert_eq!(
        command_text("true", &Some(String::new()), Some(-1), "Failed"),
        "$ true\n\n[Failed exit=-1]"
    );
}

#[test]
fn change_without_files_shows_the_status_alone() {
    assert_eq!(change_text(&vec![], "Declined"), " [Declined]");
}

#[test]
fn continued_history_extends_the_text() {
    let turns = sample();
    let earlier = compact_history_text(&turns[..1]);
    let nothing = compact_history_text(&turns[1..2]);
    let later = compact_history_text(&turns[2..]);
    assert_eq!(nothing, "");
    assert_eq!(compact_history_text(&turns[..2]), earlier);
    assert_eq!(
        compact_history_text(&turns),
        format!("{earlier}\n\n{later}")
    );
}

#[test]
fn text_does_not_depend_on_the_payload() {
    let left = [Turn {
        payload: 1,
        items: vec![agent("x")],
    }];
    let right = [Turn {
        payload: "other",
        items: vec![agent("x")],
    }];
    assert_eq!(compact_history_text(&left), compact_history_text(&right));
}

#[test]
fn thread_is_read_with_its_turns() {
    let (pending, read) = get_history(params(Some("full")));
    assert_eq!(pending.mode, "full");
    assert_eq!(read.thread_id, "thread-1");
    assert!(read.include_turns);
}

#[test]
fn full_mode_returns_the_turns() {
    let (pending, _) = get_history(params(Some("full")));
    assert_eq!(
        pending.thread_read(Ok(sample())),
        Ok(CodexGetHistoryResponse::Full { turns: sample() })
    );
}

#[test]
fn compact_mode_returns_the_text() {
    let (pending, _) = get_history(params(Some("compact")));
    assert_eq!(
        pending.thread_read(Ok(sample())),
        Ok(CodexGetHistoryResponse::Compact {
            text: SAMPLE_TEXT.to_string()
        })
    );
}

#[test]
fn compact_mode_is_the_default() {
    let (pending, _) = get_history(params(None));
    assert_eq!(
        pending,
        PendingHistory {
            mode: "compact".to_string()
        }
    );
    assert_eq!(
        pending.thread_read(Ok(vec![turn(1, vec![agent("x")])])),
        Ok(CodexGetHistoryResponse::Compact {
            text: "Assistant: x".to_string()
        })
    );
}

#[test]
fn unknown_mode_is_refused() {
    for mode in ["Full", "", "summary"] {
        let (pending, _) = get_history(params(Some(mode)));
        assert_eq!(
            pending.thread_read(Ok(sample())),
            Err(JSONRPCErrorError {
                code: INVALID_REQUEST_ERROR_CODE,
                message: format!("invalid mode: {mode} (expected \"full\" or \"compact\")"),
                data: None,
            })
        );
    }
}

#[test]
fn read_failure_comes_before_the_mode() {
    let failure = JSONRPCErrorError {
        code: -32000,
        message: "thread not loaded".to_string(),
        data: Some("{}".to_string()),
    };
    for mode in [None, Some("full"), Some("compact"), Some("summary")] {
        let (pending, _) = get_history(params(mode));
        assert_eq!(
            pending.thread_read::<u32>(Err(failure.clone())),
            Err(failure.clone())
        );
    }
}

#[test]
fn text_does_not_depend_on_where_turns_end() {
    let split = [turn(1, vec![agent("x")]), turn(2, vec![agent("y")])];
    let whole = [turn(3, vec![agent("x"), agent("y")])];
    assert_eq!(compact_history_text(&split), "Assistant: x\n\nAssistant: y");
    assert_eq!(compact_history_text(&split), compact_history_text(&whole));
}

#[test]
fn other_items_and_inputs_leave_no_trace() {
    let plain = [turn(
        1,
        vec![
            ThreadItem::UserMessage {
                content: vec![text("hi")],
            },
            agent("x"),
        ],
    )];
    let mixed = [turn(
        1,
        vec![
            ThreadItem::Other,
            ThreadItem::UserMessage {
                content: vec![
                    UserInput::Other,
                    UserInput::Text {
                        text: "hi".to_string(),
                        text_elements: vec!["{}".to_string()],
                    },
                ],
            },
            ThreadItem::Other,
            agent("x"),
        ],
    )];
    assert_eq!(compact_history_text(&plain), "User: hi\n\nAssistant: x");
    assert_eq!(compact_history_text(&plain), compact_history_text(&mixed));
}
