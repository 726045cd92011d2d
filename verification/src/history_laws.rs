//! What the plain text of a history shows of each item, and how it is put
//! together; and how a history request ends.
use crate::error::JSONRPCErrorErrorView;
use crate::history;
use crate::history::{FileUpdateChange, ThreadItem, Turn, UserInput};
use crate::protocol::CodexGetHistoryResponseView;
use crate::text;
use crate::text_laws;
use vstd::prelude::*;

verus! {

/// A section that is added to a text reads `role: body`. It stands alone if the
/// text was empty, and otherwise after the text, an empty line apart.
pub proof fn law_added_section_follows_the_text(
    before: Seq<char>,
    role: Seq<char>,
    body: Seq<char>,
)
    ensures
        before.len() == 0 ==> history::pushed(before, history::section(role, body)) == role + ": "@
            + body,
        before.len() > 0 ==> history::pushed(before, history::section(role, body)) == before
            + "\n\n"@ + role + ": "@ + body,
{
    if before.len() > 0 {
        assert(history::pushed(before, history::section(role, body)) =~= before + "\n\n"@ + role
            + ": "@ + body);
    }
}

/// A history without turns has an empty text. The text of two histories in a
/// row is that of both, an empty line apart, or that of the one which has any.
pub proof fn law_text_of_histories_in_a_row<P>(earlier: Seq<Turn<P>>, later: Seq<Turn<P>>)
    ensures
        history::history_text(Seq::<Turn<P>>::empty()).len() == 0,
        ({
            let first = history::history_text(earlier);
            let second = history::history_text(later);
            let whole = history::history_text(earlier + later);
            &&& first.len() == 0 ==> whole == second
            &&& second.len() == 0 ==> whole == first
            &&& first.len() > 0 && second.len() > 0 ==> whole == first + "\n\n"@ + second
        }),
{
    history::law_text_of_continued_history(earlier, later);
    assert(history::history_sections(Seq::<Turn<P>>::empty()).len() == 0);
}

/// Two items in one turn read like the same items in two turns.
pub proof fn law_text_of_items_in_a_row<P>(whole: Turn<P>, first: Turn<P>, second: Turn<P>)
    requires
        whole.items@ == first.items@ + second.items@,
    ensures
        history::history_text(seq![whole]) == history::history_text(seq![first, second]),
{
    lemma_items_of_one(whole);
    lemma_items_of_one(first);
    assert(seq![first, second].drop_last() =~= seq![first]);
    history::law_text_reads_items_only(seq![whole], seq![first, second]);
}

proof fn lemma_items_of_one<P>(turn: Turn<P>)
    ensures
        history::all_items(seq![turn]) == turn.items@,
{
    assert(seq![turn].drop_last() =~= Seq::<Turn<P>>::empty());
    assert(history::all_items(Seq::<Turn<P>>::empty()) =~= Seq::empty());
    assert(history::all_items(seq![turn]) =~= turn.items@);
}

proof fn lemma_sections_of_one<P>(turn: Turn<P>, item: ThreadItem)
    requires
        turn.items@ == seq![item],
    ensures
        history::history_sections(seq![turn]) == history::item_sections(item),
{
    assert(seq![turn].drop_last() =~= Seq::<Turn<P>>::empty());
    assert(history::history_sections(Seq::<Turn<P>>::empty()) =~= Seq::empty());
    assert(seq![item].drop_last() =~= Seq::<ThreadItem>::empty());
    assert(history::items_sections(Seq::<ThreadItem>::empty()) =~= Seq::empty());
    assert(history::items_sections(seq![item]) =~= history::item_sections(item));
    assert(history::history_sections(seq![turn]) =~= history::item_sections(item));
}

/// A turn with a single message of the agent, or a single plan, shows all of it
/// under its role; a turn with a single item of another kind shows nothing.
pub proof fn law_message_and_plan_are_shown_whole<P>(turn: Turn<P>, item: ThreadItem)
    requires
        turn.items@ == seq![item],
    ensures
        item matches ThreadItem::AgentMessage { text } ==> history::history_text(seq![turn])
            == "Assistant"@ + ": "@ + text@,
        item matches ThreadItem::Plan { text } ==> history::history_text(seq![turn]) == "Plan"@
            + ": "@ + text@,
        item is Other ==> history::history_text(seq![turn]) == Seq::<char>::empty(),
{
    lemma_sections_of_one(turn, item);
}

/// A single piece of text from the user is shown whole, anything else that the
/// user sent is not shown, and a message without content shows nothing.
pub proof fn law_user_text_is_shown_whole<P>(turn: Turn<P>, content: Vec<UserInput>)
    requires
        turn.items@ == seq![ThreadItem::UserMessage { content }],
    ensures
        content@.len() == 0 ==> history::history_text(seq![turn]) == Seq::<char>::empty(),
        content@.len() == 1 ==> match content@[0] {
            UserInput::Text { text, .. } => history::history_text(seq![turn]) == "User"@ + ": "@
                + text@,
            UserInput::Other => history::history_text(seq![turn]) == Seq::<char>::empty(),
        },
{
    lemma_sections_of_one(turn, ThreadItem::UserMessage { content });
    if content@.len() == 1 {
        assert(content@.drop_last() =~= Seq::<UserInput>::empty());
        let parts = history::user_sections(content@);
        assert(history::user_sections(Seq::<UserInput>::empty()) =~= Seq::empty());
        if let UserInput::Text { text, .. } = content@[0] {
            assert(parts =~= seq!["User"@ + ": "@ + text@]);
        } else {
            assert(parts =~= Seq::empty());
        }
    }
}

proof fn lemma_user_sections_in_a_row(first: Seq<UserInput>, second: Seq<UserInput>)
    ensures
        history::user_sections(first + second) == history::user_sections(first)
            + history::user_sections(second),
    decreases second.len(),
{
    if second.len() == 0 {
        assert(first + second =~= first);
        assert(history::user_sections(first) + history::user_sections(second)
            =~= history::user_sections(first));
    } else {
        lemma_user_sections_in_a_row(first, second.drop_last());
        assert((first + second).drop_last() =~= first + second.drop_last());
        assert((first + second).last() == second.last());
        assert(history::user_sections(first + second) =~= history::user_sections(first)
            + history::user_sections(second));
    }
}

proof fn lemma_sections_of_two<P>(first: Turn<P>, left: ThreadItem, second: Turn<P>, right: ThreadItem)
    requires
        first.items@ == seq![left],
        second.items@ == seq![right],
    ensures
        history::history_sections(seq![first, second]) == history::item_sections(left)
            + history::item_sections(right),
{
    lemma_sections_of_one(first, left);
    lemma_sections_of_one(second, right);
    history::law_sections_of_continued_history(seq![first], seq![second]);
    assert(seq![first] + seq![second] =~= seq![first, second]);
}

/// A message of the user reads like its pieces sent in messages of their own.
pub proof fn law_user_message_reads_piece_by_piece<P>(
    whole: Turn<P>,
    content: Vec<UserInput>,
    first: Turn<P>,
    beginning: Vec<UserInput>,
    second: Turn<P>,
    rest: Vec<UserInput>,
)
    requires
        whole.items@ == seq![ThreadItem::UserMessage { content }],
        first.items@ == seq![ThreadItem::UserMessage { content: beginning }],
        second.items@ == seq![ThreadItem::UserMessage { content: rest }],
        content@ == beginning@ + rest@,
    ensures
        history::history_text(seq![whole]) == history::history_text(seq![first, second]),
{
    lemma_sections_of_one(whole, ThreadItem::UserMessage { content });
    lemma_sections_of_two(
        first,
        ThreadItem::UserMessage { content: beginning },
        second,
        ThreadItem::UserMessage { content: rest },
    );
    lemma_user_sections_in_a_row(beginning@, rest@);
}

/// A single entry of reasoning is shown whole, and reasoning without entries
/// shows nothing.
pub proof fn law_reasoning_is_shown_whole<P>(turn: Turn<P>, summary: Vec<String>)
    requires
        turn.items@ == seq![ThreadItem::Reasoning { summary }],
    ensures
        summary@.len() == 0 ==> history::history_text(seq![turn]) == Seq::<char>::empty(),
        summary@.len() == 1 ==> history::history_text(seq![turn]) == "Reasoning"@ + ": "@
            + summary@[0]@,
{
    lemma_sections_of_one(turn, ThreadItem::Reasoning { summary });
    if summary@.len() == 1 {
        assert(history::reasoning_sections(summary@) =~= seq![
            "Reasoning"@ + ": "@ + summary@[0]@,
        ]);
    } else if summary@.len() == 0 {
        assert(history::reasoning_sections(summary@) =~= Seq::empty());
    }
}

/// Reasoning reads like its entries in items of their own.
pub proof fn law_reasoning_reads_entry_by_entry<P>(
    whole: Turn<P>,
    summary: Vec<String>,
    first: Turn<P>,
    beginning: Vec<String>,
    second: Turn<P>,
    rest: Vec<String>,
)
    requires
        whole.items@ == seq![ThreadItem::Reasoning { summary }],
        first.items@ == seq![ThreadItem::Reasoning { summary: beginning }],
        second.items@ == seq![ThreadItem::Reasoning { summary: rest }],
        summary@ == beginning@ + rest@,
    ensures
        history::history_text(seq![whole]) == history::history_text(seq![first, second]),
{
    lemma_sections_of_one(whole, ThreadItem::Reasoning { summary });
    lemma_sections_of_two(
        first,
        ThreadItem::Reasoning { summary: beginning },
        second,
        ThreadItem::Reasoning { summary: rest },
    );
    assert(history::reasoning_sections(summary@) =~= history::reasoning_sections(beginning@)
        + history::reasoning_sections(rest@));
}

/// A command's section shows the command behind a dollar sign; on the lines
/// below, what it printed, if that is known; and on the last one, in brackets,
/// its status and its exit code, if it has one.
pub proof fn law_command_is_shown_whole(
    command: Seq<char>,
    printed: Seq<char>,
    code: i32,
    status: Seq<char>,
)
    ensures
        history::command_body(command, None, None, status) == "$ "@ + command + "\n["@ + status
            + "]"@,
        history::command_body(command, Some(printed), None, status) == "$ "@ + command + "\n"@
            + printed + "\n["@ + status + "]"@,
        history::command_body(command, None, Some(code), status) == "$ "@ + command + "\n["@
            + status + " exit="@ + text::decimal(code as int) + "]"@,
        history::command_body(command, Some(printed), Some(code), status) == "$ "@ + command
            + "\n"@ + printed + "\n["@ + status + " exit="@ + text::decimal(code as int) + "]"@,
{
    assert(history::command_body(command, None, None, status) =~= "$ "@ + command + "\n["@ + status
        + "]"@);
    assert(history::command_body(command, Some(printed), None, status) =~= "$ "@ + command + "\n"@
        + printed + "\n["@ + status + "]"@);
    assert(history::command_body(command, None, Some(code), status) =~= "$ "@ + command + "\n["@
        + status + " exit="@ + text::decimal(code as int) + "]"@);
    assert(history::command_body(command, Some(printed), Some(code), status) =~= "$ "@ + command
        + "\n"@ + printed + "\n["@ + status + " exit="@ + text::decimal(code as int) + "]"@);
}

/// A turn with a single command shows it, with its own output, exit code and
/// status.
pub proof fn law_command_of_a_turn_is_shown<P>(
    turn: Turn<P>,
    command: String,
    aggregated_output: Option<String>,
    exit_code: Option<i32>,
    status: String,
)
    requires
        turn.items@ == seq![
            ThreadItem::CommandExecution { command, aggregated_output, exit_code, status },
        ],
    ensures
        history::history_text(seq![turn]) == "Command"@ + ": "@ + "$ "@ + command@ + (
        match aggregated_output {
            Some(printed) => "\n"@ + printed@,
            None => Seq::empty(),
        }) + "\n["@ + status@ + (match exit_code {
            Some(code) => " exit="@ + text::decimal(code as int),
            None => Seq::empty(),
        }) + "]"@,
{
    lemma_sections_of_one(
        turn,
        ThreadItem::CommandExecution { command, aggregated_output, exit_code, status },
    );
    assert(history::history_text(seq![turn]) =~= "Command"@ + ": "@ + "$ "@ + command@ + (
    match aggregated_output {
        Some(printed) => "\n"@ + printed@,
        None => Seq::empty(),
    }) + "\n["@ + status@ + (match exit_code {
        Some(code) => " exit="@ + text::decimal(code as int),
        None => Seq::empty(),
    }) + "]"@);
}

/// A file change has one path for each changed file, in order.
pub proof fn law_every_changed_file_has_its_path(changes: Seq<FileUpdateChange>)
    ensures
        history::changed_paths(changes).len() == changes.len(),
        forall|i: int|
            0 <= i < changes.len() ==> #[trigger] history::changed_paths(changes)[i]
                == changes[i].path@,
{
}

/// A file change's section names every changed file: the path of the first
/// comes before what the others read, a comma and a blank apart, and the status
/// in brackets comes last.
pub proof fn law_change_names_every_file(
    first: FileUpdateChange,
    others: Seq<FileUpdateChange>,
    status: Seq<char>,
)
    ensures
        history::change_body(history::changed_paths(Seq::empty()), status) == " ["@ + status
            + "]"@,
        others.len() == 0 ==> history::change_body(
            history::changed_paths(seq![first] + others),
            status,
        ) == first.path@ + " ["@ + status + "]"@,
        others.len() > 0 ==> history::change_body(
            history::changed_paths(seq![first] + others),
            status,
        ) == first.path@ + ", "@ + history::change_body(history::changed_paths(others), status),
{
    let none = history::changed_paths(Seq::empty());
    assert(none =~= Seq::empty());
    assert(history::change_body(none, status) =~= " ["@ + status + "]"@);
    let all = history::changed_paths(seq![first] + others);
    let rest = history::changed_paths(others);
    assert(all =~= seq![first.path@] + rest);
    if others.len() == 0 {
        assert(all =~= seq![first.path@]);
    } else {
        text_laws::law_joining_goes_list_by_list(seq![first.path@], rest, ", "@);
        assert(history::change_body(all, status) =~= first.path@ + ", "@ + history::change_body(
            rest,
            status,
        ));
    }
}

/// A turn with a single file change shows it, with its own files and status.
pub proof fn law_change_of_a_turn_is_shown<P>(
    turn: Turn<P>,
    changes: Vec<FileUpdateChange>,
    status: String,
)
    requires
        turn.items@ == seq![ThreadItem::FileChange { changes, status }],
    ensures
        history::history_text(seq![turn]) == "File change"@ + ": "@ + text::joined(
            changes@.map_values(|change: FileUpdateChange| change.path@),
            ", "@,
        ) + " ["@ + status@ + "]"@,
        changes@.len() == 1 ==> history::history_text(seq![turn]) == "File change"@ + ": "@
            + changes@[0].path@ + " ["@ + status@ + "]"@,
{
    lemma_sections_of_one(turn, ThreadItem::FileChange { changes, status });
    let paths = changes@.map_values(|change: FileUpdateChange| change.path@);
    assert(history::changed_paths(changes@) =~= paths);
    assert(history::history_text(seq![turn]) =~= "File change"@ + ": "@ + text::joined(paths, ", "@)
        + " ["@ + status@ + "]"@);
    if changes@.len() == 1 {
        assert(paths =~= seq![changes@[0].path@]);
    }
}

/// The mode of a request is the one that it names, and `compact` if it names
/// none.
pub proof fn law_mode_is_the_one_named(name: Seq<char>)
    ensures
        history::requested_mode(Some(name)) == name,
        history::requested_mode(None) == "compact"@,
{
}

/// A thread that was read with a mode that is neither `full` nor `compact`
/// ends the request with an error that blames it and quotes the mode.
pub proof fn law_unknown_mode_is_quoted<P>(mode: Seq<char>, turns: Seq<Turn<P>>)
    requires
        mode != "full"@,
        mode != "compact"@,
    ensures
        history::history_outcome(mode, Ok(turns)) == Err::<
            CodexGetHistoryResponseView<P>,
            JSONRPCErrorErrorView,
        >(
            JSONRPCErrorErrorView {
                code: (-32600) as i64,
                message: "invalid mode: "@ + mode + " (expected \"full\" or \"compact\")"@,
                data: None,
            },
        ),
{
}

/// What reading a thread gave, and how a request ended, are modelled with the
/// very turns, response or failure that they hold.
pub proof fn law_outcomes_are_modelled_whole<P>(
    turns: Vec<Turn<P>>,
    response: crate::protocol::CodexGetHistoryResponse<P>,
    failure: crate::error::JSONRPCErrorError,
)
    ensures
        history::read_view::<P>(Ok(turns)) == Ok::<Seq<Turn<P>>, JSONRPCErrorErrorView>(turns@),
        history::read_view::<P>(Err(failure)) == Err::<Seq<Turn<P>>, JSONRPCErrorErrorView>(
            failure@,
        ),
        history::outcome_view::<P>(Ok(response)) == Ok::<
            CodexGetHistoryResponseView<P>,
            JSONRPCErrorErrorView,
        >(response@),
        history::outcome_view::<P>(Err(failure)) == Err::<
            CodexGetHistoryResponseView<P>,
            JSONRPCErrorErrorView,
        >(failure@),
{
}

} // verus!
