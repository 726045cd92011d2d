//! Thread history: the structured turns and their plain-text projection.
use crate::error;
use crate::error::{JSONRPCErrorError, JSONRPCErrorErrorView};
use crate::protocol::{
    CodexGetHistoryParams, CodexGetHistoryParamsView, CodexGetHistoryResponse,
    CodexGetHistoryResponseView,
};
use crate::text;
use vstd::prelude::*;

verus! {

/// One turn of a thread.
#[derive(Clone, Debug, PartialEq, Eq)]
pub struct Turn<P> {
    /// The whole turn as the server holds it; carried along unread.
    pub payload: P,
    /// What happened in the turn, in order.
    pub items: Vec<ThreadItem>,
}

/// Something that happened in a turn, as far as the plain-text projection
/// reads it.
#[derive(Clone, Debug, PartialEq, Eq)]
pub enum ThreadItem {
    UserMessage { content: Vec<UserInput> },
    AgentMessage { text: String },
    Plan { text: String },
    Reasoning { summary: Vec<String> },
    CommandExecution {
        command: String,
        aggregated_output: Option<String>,
        exit_code: Option<i32>,
        /// Name of the command's status.
        status: String,
    },
    FileChange {
        changes: Vec<FileUpdateChange>,
        /// Name of the change's status.
        status: String,
    },
    /// An item of any other kind.
    Other,
}

/// A piece of what the user sent.
#[derive(Clone, Debug, PartialEq, Eq)]
pub enum UserInput {
    Text {
        text: String,
        /// Spans of the text that stand for something else, each as JSON text.
        text_elements: Vec<String>,
    },
    /// An image, a mention, or anything else that is not text.
    Other,
}

/// The mathematical model of [`UserInput`].
pub enum UserInputView {
    Text { text: Seq<char>, text_elements: Seq<Seq<char>> },
    Other,
}

impl View for UserInput {
    type V = UserInputView;

    open spec fn view(&self) -> UserInputView {
        match self {
            UserInput::Text { text, text_elements } => UserInputView::Text {
                text: text@,
                text_elements: text::texts(text_elements@),
            },
            UserInput::Other => UserInputView::Other,
        }
    }
}

/// A file that a change touches.
#[derive(Clone, Debug, PartialEq, Eq)]
pub struct FileUpdateChange {
    pub path: String,
}

/// A section of the plain text: what was said, and by whom.
pub open spec fn section(role: Seq<char>, body: Seq<char>) -> Seq<char> {
    role + ": "@ + body
}

/// `text` with one more section, an empty line apart from what was there.
pub open spec fn pushed(text: Seq<char>, part: Seq<char>) -> Seq<char> {
    if text.len() == 0 {
        part
    } else {
        text + "\n\n"@ + part
    }
}

/// `text` with more sections, one after the other.
pub open spec fn extended(text: Seq<char>, parts: Seq<Seq<char>>) -> Seq<char>
    decreases parts.len(),
{
    if parts.len() == 0 {
        text
    } else {
        pushed(extended(text, parts.drop_last()), parts.last())
    }
}

/// The sections of what the user sent: one for each piece of text.
pub open spec fn user_sections(content: Seq<UserInput>) -> Seq<Seq<char>>
    decreases content.len(),
{
    if content.len() == 0 {
        Seq::empty()
    } else {
        let earlier = user_sections(content.drop_last());
        match content.last() {
            UserInput::Text { text, .. } => earlier.push(section("User"@, text@)),
            UserInput::Other => earlier,
        }
    }
}

/// The sections of a summary of reasoning: one for each entry.
pub open spec fn reasoning_sections(summary: Seq<String>) -> Seq<Seq<char>> {
    summary.map_values(|entry: String| section("Reasoning"@, entry@))
}

/// A command with what it printed, its status and its exit code.
pub open spec fn command_body(
    command: Seq<char>,
    output: Option<Seq<char>>,
    exit_code: Option<i32>,
    status: Seq<char>,
) -> Seq<char> {
    "$ "@ + command + (match output {
        Some(printed) => "\n"@ + printed,
        None => Seq::empty(),
    }) + "\n["@ + status + (match exit_code {
        Some(code) => " exit="@ + text::decimal(code as int),
        None => Seq::empty(),
    }) + "]"@
}

/// The paths of a list of changes.
pub open spec fn changed_paths(changes: Seq<FileUpdateChange>) -> Seq<Seq<char>> {
    changes.map_values(|change: FileUpdateChange| change.path@)
}

/// The changed files with the status of the change.
pub open spec fn change_body(paths: Seq<Seq<char>>, status: Seq<char>) -> Seq<char> {
    text::joined(paths, ", "@) + " ["@ + status + "]"@
}

/// The sections of an item.
pub open spec fn item_sections(item: ThreadItem) -> Seq<Seq<char>> {
    match item {
        ThreadItem::UserMessage { content } => user_sections(content@),
        ThreadItem::AgentMessage { text } => seq![section("Assistant"@, text@)],
        ThreadItem::Plan { text } => seq![section("Plan"@, text@)],
        ThreadItem::Reasoning { summary } => reasoning_sections(summary@),
        ThreadItem::CommandExecution { command, aggregated_output, exit_code, status } => seq![
            section(
                "Command"@,
                command_body(command@, aggregated_output.deep_view(), exit_code, status@),
            ),
        ],
        ThreadItem::FileChange { changes, status } => seq![
            section("File change"@, change_body(changed_paths(changes@), status@)),
        ],
        ThreadItem::Other => Seq::empty(),
    }
}

/// The sections of a list of items, in order.
pub open spec fn items_sections(items: Seq<ThreadItem>) -> Seq<Seq<char>>
    decreases items.len(),
{
    if items.len() == 0 {
        Seq::empty()
    } else {
        items_sections(items.drop_last()) + item_sections(items.last())
    }
}

/// The sections of a history, in order.
pub open spec fn history_sections<P>(turns: Seq<Turn<P>>) -> Seq<Seq<char>>
    decreases turns.len(),
{
    if turns.len() == 0 {
        Seq::empty()
    } else {
        history_sections(turns.drop_last()) + items_sections(turns.last().items@)
    }
}

/// The plain text of a history: its sections, an empty line apart.
pub open spec fn history_text<P>(turns: Seq<Turn<P>>) -> Seq<char> {
    text::joined(history_sections(turns), "\n\n"@)
}

/// No section is empty: each begins with a role and a colon.
pub open spec fn all_filled(parts: Seq<Seq<char>>) -> bool {
    forall|i: int| 0 <= i < parts.len() ==> #[trigger] parts[i].len() > 0
}

proof fn lemma_section_is_filled(role: Seq<char>, body: Seq<char>)
    ensures
        section(role, body).len() > 0,
{
    reveal_strlit(": ");
}

proof fn lemma_user_sections_are_filled(content: Seq<UserInput>)
    ensures
        all_filled(user_sections(content)),
    decreases content.len(),
{
    if content.len() > 0 {
        lemma_user_sections_are_filled(content.drop_last());
        if let UserInput::Text { text, .. } = content.last() {
            lemma_section_is_filled("User"@, text@);
        }
    }
}

proof fn lemma_item_sections_are_filled(item: ThreadItem)
    ensures
        all_filled(item_sections(item)),
{
    match item {
        ThreadItem::UserMessage { content } => {
            lemma_user_sections_are_filled(content@);
        },
        ThreadItem::AgentMessage { text } => {
            lemma_section_is_filled("Assistant"@, text@);
        },
        ThreadItem::Plan { text } => {
            lemma_section_is_filled("Plan"@, text@);
        },
        ThreadItem::Reasoning { summary } => {
            assert forall|i: int| 0 <= i < summary@.len() implies #[trigger] reasoning_sections(
                summary@,
            )[i].len() > 0 by {
                lemma_section_is_filled("Reasoning"@, summary@[i]@);
            }
        },
        ThreadItem::CommandExecution { command, aggregated_output, exit_code, status } => {
            lemma_section_is_filled(
                "Command"@,
                command_body(command@, aggregated_output.deep_view(), exit_code, status@),
            );
        },
        ThreadItem::FileChange { changes, status } => {
            lemma_section_is_filled(
                "File change"@,
                change_body(changed_paths(changes@), status@),
            );
        },
        ThreadItem::Other => {},
    }
}

proof fn lemma_items_sections_are_filled(items: Seq<ThreadItem>)
    ensures
        all_filled(items_sections(items)),
    decreases items.len(),
{
    if items.len() > 0 {
        lemma_items_sections_are_filled(items.drop_last());
        lemma_item_sections_are_filled(items.last());
    }
}

/// Every section of a history holds some text.
pub proof fn law_sections_are_filled<P>(turns: Seq<Turn<P>>)
    ensures
        all_filled(history_sections(turns)),
    decreases turns.len(),
{
    if turns.len() > 0 {
        law_sections_are_filled(turns.drop_last());
        lemma_items_sections_are_filled(turns.last().items@);
    }
}

proof fn lemma_extended_by_more(text: Seq<char>, first: Seq<Seq<char>>, second: Seq<Seq<char>>)
    ensures
        extended(text, first + second) == extended(extended(text, first), second),
    decreases second.len(),
{
    if second.len() == 0 {
        assert(first + second =~= first);
    } else {
        lemma_extended_by_more(text, first, second.drop_last());
        assert((first + second).drop_last() =~= first + second.drop_last());
    }
}

proof fn lemma_extended_by_one(text: Seq<char>, part: Seq<char>)
    ensures
        extended(text, seq![part]) == pushed(text, part),
{
    assert(seq![part].drop_last() =~= Seq::empty());
    assert(extended(text, Seq::empty()) == text);
}

proof fn lemma_extended_is_joined(parts: Seq<Seq<char>>)
    requires
        all_filled(parts),
    ensures
        extended(Seq::empty(), parts) == text::joined(parts, "\n\n"@),
        parts.len() > 0 ==> extended(Seq::empty(), parts).len() > 0,
    decreases parts.len(),
{
    if parts.len() > 0 {
        lemma_extended_is_joined(parts.drop_last());
        assert(parts.last().len() > 0);
    }
}

/// The text of a history is empty exactly if the history has no section.
pub proof fn law_text_is_empty_without_sections<P>(turns: Seq<Turn<P>>)
    ensures
        history_text(turns).len() == 0 <==> history_sections(turns).len() == 0,
{
    law_sections_are_filled(turns);
    lemma_extended_is_joined(history_sections(turns));
}

/// The sections of a history that goes on are those of its beginning, followed
/// by those of its continuation.
pub proof fn law_sections_of_continued_history<P>(earlier: Seq<Turn<P>>, later: Seq<Turn<P>>)
    ensures
        history_sections(earlier + later) == history_sections(earlier) + history_sections(later),
    decreases later.len(),
{
    if later.len() == 0 {
        assert(earlier + later =~= earlier);
        assert(history_sections(earlier) + history_sections(later) =~= history_sections(earlier));
    } else {
        law_sections_of_continued_history(earlier, later.drop_last());
        assert((earlier + later).drop_last() =~= earlier + later.drop_last());
        assert(history_sections(earlier + later) =~= history_sections(earlier) + history_sections(
            later,
        ));
    }
}

/// The text of a history that goes on is that of its beginning and that of its
/// continuation, an empty line apart if both hold any text.
pub proof fn law_text_of_continued_history<P>(earlier: Seq<Turn<P>>, later: Seq<Turn<P>>)
    ensures
        history_text(earlier + later) == if history_text(later).len() == 0 {
            history_text(earlier)
        } else {
            pushed(history_text(earlier), history_text(later))
        },
{
    law_sections_of_continued_history(earlier, later);
    law_sections_are_filled(earlier);
    law_sections_are_filled(later);
    law_sections_are_filled(earlier + later);
    let first = history_sections(earlier);
    let second = history_sections(later);
    lemma_extended_is_joined(first);
    lemma_extended_is_joined(second);
    lemma_extended_is_joined(first + second);
    lemma_extended_by_more(Seq::empty(), first, second);
    lemma_extended_from_text(extended(Seq::empty(), first), second);
}

proof fn lemma_extended_from_text(text: Seq<char>, parts: Seq<Seq<char>>)
    requires
        all_filled(parts),
    ensures
        extended(text, parts) == if parts.len() == 0 {
            text
        } else {
            pushed(text, extended(Seq::empty(), parts))
        },
    decreases parts.len(),
{
    if parts.len() > 0 {
        let rest = parts.drop_last();
        lemma_extended_from_text(text, rest);
        lemma_extended_is_joined(rest);
        assert(parts.last().len() > 0);
        assert(extended(text, parts) =~= pushed(text, extended(Seq::empty(), parts)));
    }
}

/// The items of a history, in order, wherever one turn ends and the next begins.
pub open spec fn all_items<P>(turns: Seq<Turn<P>>) -> Seq<ThreadItem>
    decreases turns.len(),
{
    if turns.len() == 0 {
        Seq::empty()
    } else {
        all_items(turns.drop_last()) + turns.last().items@
    }
}

/// The items without those of other kinds.
pub open spec fn shown(items: Seq<ThreadItem>) -> Seq<ThreadItem> {
    items.filter(|item: ThreadItem| !(item is Other))
}

proof fn lemma_sections_of_continued_items(earlier: Seq<ThreadItem>, later: Seq<ThreadItem>)
    ensures
        items_sections(earlier + later) == items_sections(earlier) + items_sections(later),
    decreases later.len(),
{
    if later.len() == 0 {
        assert(earlier + later =~= earlier);
        assert(items_sections(earlier) + items_sections(later) =~= items_sections(earlier));
    } else {
        lemma_sections_of_continued_items(earlier, later.drop_last());
        assert((earlier + later).drop_last() =~= earlier + later.drop_last());
        assert(items_sections(earlier + later) =~= items_sections(earlier) + items_sections(later));
    }
}

proof fn lemma_sections_of_all_items<P>(turns: Seq<Turn<P>>)
    ensures
        history_sections(turns) == items_sections(all_items(turns)),
    decreases turns.len(),
{
    if turns.len() > 0 {
        lemma_sections_of_all_items(turns.drop_last());
        lemma_sections_of_continued_items(all_items(turns.drop_last()), turns.last().items@);
    }
}

proof fn lemma_sections_of_shown_items(items: Seq<ThreadItem>)
    ensures
        items_sections(items) == items_sections(shown(items)),
    decreases items.len(),
{
    reveal(Seq::filter);
    if items.len() > 0 {
        let rest = items.drop_last();
        lemma_sections_of_shown_items(rest);
        if items.last() is Other {
            assert(items_sections(items) =~= items_sections(rest));
        } else {
            assert(shown(items) == shown(rest).push(items.last()));
            assert(shown(items).drop_last() =~= shown(rest));
        }
    }
}

/// Only the items reach the text: histories with the same items in the same
/// order have the same sections, wherever their turns end and whatever else
/// those hold.
pub proof fn law_text_reads_items_only<P, Q>(left: Seq<Turn<P>>, right: Seq<Turn<Q>>)
    requires
        all_items(left) == all_items(right),
    ensures
        history_sections(left) == history_sections(right),
        history_text(left) == history_text(right),
{
    lemma_sections_of_all_items(left);
    lemma_sections_of_all_items(right);
}

/// Items of other kinds leave no trace in the text: histories that differ in
/// nothing else have the same sections.
pub proof fn law_other_items_leave_no_trace<P, Q>(left: Seq<Turn<P>>, right: Seq<Turn<Q>>)
    requires
        shown(all_items(left)) == shown(all_items(right)),
    ensures
        history_sections(left) == history_sections(right),
        history_text(left) == history_text(right),
{
    lemma_sections_of_all_items(left);
    lemma_sections_of_all_items(right);
    lemma_sections_of_shown_items(all_items(left));
    lemma_sections_of_shown_items(all_items(right));
}

/// What the user sent beside text leaves no trace either.
pub proof fn law_other_inputs_leave_no_trace(content: Seq<UserInput>)
    ensures
        user_sections(content) == user_sections(
            content.filter(|input: UserInput| input is Text),
        ),
    decreases content.len(),
{
    reveal(Seq::filter);
    if content.len() > 0 {
        let rest = content.drop_last();
        law_other_inputs_leave_no_trace(rest);
        let kept = rest.filter(|input: UserInput| input is Text);
        if content.last() is Text {
            assert(kept.push(content.last()).drop_last() =~= kept);
        }
    }
}

/// Adds a section to a text.
pub fn push_section(out: &mut String, role: &str, body: &str)
    ensures
        final(out)@ == pushed(old(out)@, section(role@, body@)),
{
    if !out.as_str().is_empty() {
        out.append("\n\n");
    }
    out.append(role);
    out.append(": ");
    out.append(body);
    assert(out@ =~= pushed(old(out)@, section(role@, body@)));
}

fn push_user_sections(out: &mut String, content: &Vec<UserInput>)
    ensures
        final(out)@ == extended(old(out)@, user_sections(content@)),
{
    let mut i: usize = 0;
    while i < content.len()
        invariant
            i <= content.len(),
            out@ == extended(old(out)@, user_sections(content@.take(i as int))),
        decreases content.len() - i,
    {
        proof {
            let next = content@.take(i + 1);
            assert(next.drop_last() =~= content@.take(i as int));
            assert(next.last() == content@[i as int]);
            if let UserInput::Text { text, .. } = content@[i as int] {
                let earlier = user_sections(content@.take(i as int));
                let part = section("User"@, text@);
                assert(earlier.push(part).drop_last() =~= earlier);
            }
        }
        match &content[i] {
            UserInput::Text { text, .. } => push_section(out, "User", text.as_str()),
            UserInput::Other => {},
        }
        i = i + 1;
    }
    assert(content@.take(content@.len() as int) =~= content@);
}

fn push_reasoning_sections(out: &mut String, summary: &Vec<String>)
    ensures
        final(out)@ == extended(old(out)@, reasoning_sections(summary@)),
{
    let mut i: usize = 0;
    while i < summary.len()
        invariant
            i <= summary.len(),
            out@ == extended(old(out)@, reasoning_sections(summary@).take(i as int)),
        decreases summary.len() - i,
    {
        proof {
            let next = reasoning_sections(summary@).take(i + 1);
            assert(next.drop_last() =~= reasoning_sections(summary@).take(i as int));
        }
        push_section(out, "Reasoning", summary[i].as_str());
        i = i + 1;
    }
    assert(reasoning_sections(summary@).take(summary@.len() as int) =~= reasoning_sections(
        summary@,
    ));
}

/// The text of a command's section.
pub fn command_text(
    command: &str,
    aggregated_output: &Option<String>,
    exit_code: Option<i32>,
    status: &str,
) -> (body: String)
    ensures
        body@ == command_body(command@, aggregated_output.deep_view(), exit_code, status@),
{
    let mut body: String = text::concatenate("$ ", command);
    if let Some(output) = aggregated_output {
        body.append("\n");
        body.append(output.as_str());
    }
    body.append("\n[");
    body.append(status);
    if let Some(code) = exit_code {
        body.append(" exit=");
        body.append(text::decimal_text(code).as_str());
    }
    body.append("]");
    assert(body@ =~= command_body(command@, aggregated_output.deep_view(), exit_code, status@));
    body
}

/// The text of a file change's section.
pub fn change_text(changes: &Vec<FileUpdateChange>, status: &str) -> (body: String)
    ensures
        body@ == change_body(changed_paths(changes@), status@),
{
    let mut paths: Vec<String> = Vec::new();
    let mut i: usize = 0;
    while i < changes.len()
        invariant
            i <= changes.len(),
            text::texts(paths@) == changed_paths(changes@).take(i as int),
        decreases changes.len() - i,
    {
        let ghost before = paths@;
        paths.push(changes[i].path.clone());
        proof {
            assert(text::texts(paths@) =~= text::texts(before).push(changes@[i as int].path@));
            assert(changed_paths(changes@).take(i + 1) =~= changed_paths(changes@).take(
                i as int,
            ).push(changes@[i as int].path@));
        }
        i = i + 1;
    }
    assert(changed_paths(changes@).take(changes@.len() as int) =~= changed_paths(changes@));
    let mut body: String = text::join(&paths, ", ");
    body.append(" [");
    body.append(status);
    body.append("]");
    body
}

fn push_item(out: &mut String, item: &ThreadItem)
    ensures
        final(out)@ == extended(old(out)@, item_sections(*item)),
{
    match item {
        ThreadItem::UserMessage { content } => push_user_sections(out, content),
        ThreadItem::AgentMessage { text } => {
            proof {
                lemma_extended_by_one(out@, section("Assistant"@, text@));
            }
            push_section(out, "Assistant", text.as_str());
        },
        ThreadItem::Plan { text } => {
            proof {
                lemma_extended_by_one(out@, section("Plan"@, text@));
            }
            push_section(out, "Plan", text.as_str());
        },
        ThreadItem::Reasoning { summary } => push_reasoning_sections(out, summary),
        ThreadItem::CommandExecution { command, aggregated_output, exit_code, status } => {
            let body = command_text(
                command.as_str(),
                aggregated_output,
                *exit_code,
                status.as_str(),
            );
            proof {
                lemma_extended_by_one(out@, section("Command"@, body@));
            }
            push_section(out, "Command", body.as_str());
        },
        ThreadItem::FileChange { changes, status } => {
            let body = change_text(changes, status.as_str());
            proof {
                lemma_extended_by_one(out@, section("File change"@, body@));
            }
            push_section(out, "File change", body.as_str());
        },
        ThreadItem::Other => {},
    }
}

fn push_items(out: &mut String, items: &Vec<ThreadItem>)
    ensures
        final(out)@ == extended(old(out)@, items_sections(items@)),
{
    let mut i: usize = 0;
    while i < items.len()
        invariant
            i <= items.len(),
            out@ == extended(old(out)@, items_sections(items@.take(i as int))),
        decreases items.len() - i,
    {
        proof {
            let next = items@.take(i + 1);
            assert(next.drop_last() =~= items@.take(i as int));
            assert(next.last() == items@[i as int]);
            lemma_extended_by_more(
                old(out)@,
                items_sections(items@.take(i as int)),
                item_sections(items@[i as int]),
            );
        }
        push_item(out, &items[i]);
        i = i + 1;
    }
    assert(items@.take(items@.len() as int) =~= items@);
}

/// Plain-text projection of a thread's history.
pub fn compact_history_text<P>(turns: &[Turn<P>]) -> (text: String)
    ensures
        text@ == history_text(turns@),
{
    let mut text: String = String::new();
    let mut i: usize = 0;
    while i < turns.len()
        invariant
            i <= turns.len(),
            text@ == extended(Seq::empty(), history_sections(turns@.take(i as int))),
        decreases turns.len() - i,
    {
        proof {
            let next = turns@.take(i + 1);
            assert(next.drop_last() =~= turns@.take(i as int));
            assert(next.last() == turns@[i as int]);
            lemma_extended_by_more(
                Seq::empty(),
                history_sections(turns@.take(i as int)),
                items_sections(turns@[i as int].items@),
            );
        }
        push_items(&mut text, &turns[i].items);
        i = i + 1;
    }
    proof {
        assert(turns@.take(turns@.len() as int) =~= turns@);
        law_sections_are_filled(turns@);
        lemma_extended_is_joined(history_sections(turns@));
    }
    text
}

/// What to read of which thread.
#[derive(Clone, Debug, PartialEq, Eq)]
pub struct ThreadReadParams {
    pub thread_id: String,
    /// Whether the turns are wanted.
    pub include_turns: bool,
}

/// A history request whose thread is being read.
#[derive(Clone, Debug, PartialEq, Eq)]
pub struct PendingHistory {
    /// The mode in which the history is wanted.
    pub mode: String,
}

/// The mode that a request asks for; the compact one unless it says otherwise.
pub open spec fn requested_mode(mode: Option<Seq<char>>) -> Seq<char> {
    match mode {
        Some(name) => name,
        None => "compact"@,
    }
}

/// What a request is told that asks for a mode there is none of.
pub open spec fn invalid_mode_message(mode: Seq<char>) -> Seq<char> {
    "invalid mode: "@ + mode + " (expected \"full\" or \"compact\")"@
}

/// How a history request ends, given its mode and what reading the thread gave.
pub open spec fn history_outcome<P>(
    mode: Seq<char>,
    read: Result<Seq<Turn<P>>, JSONRPCErrorErrorView>,
) -> Result<CodexGetHistoryResponseView<P>, JSONRPCErrorErrorView> {
    match read {
        Err(failure) => Err(failure),
        Ok(turns) => if mode == "full"@ {
            Ok(CodexGetHistoryResponseView::Full { turns })
        } else if mode == "compact"@ {
            Ok(CodexGetHistoryResponseView::Compact { text: history_text(turns) })
        } else {
            Err(error::invalid_request_view(invalid_mode_message(mode)))
        },
    }
}

/// The mathematical model of what reading a thread gave.
pub open spec fn read_view<P>(read: Result<Vec<Turn<P>>, JSONRPCErrorError>) -> Result<
    Seq<Turn<P>>,
    JSONRPCErrorErrorView,
> {
    match read {
        Ok(turns) => Ok(turns@),
        Err(failure) => Err(failure@),
    }
}

/// The mathematical model of how a history request ended.
pub open spec fn outcome_view<P>(
    outcome: Result<CodexGetHistoryResponse<P>, JSONRPCErrorError>,
) -> Result<CodexGetHistoryResponseView<P>, JSONRPCErrorErrorView> {
    match outcome {
        Ok(response) => Ok(response@),
        Err(failure) => Err(failure@),
    }
}

/// Opens a history request: the thread is read, with its turns, before the
/// mode is looked at.
pub fn get_history(params: CodexGetHistoryParams) -> (opened: (PendingHistory, ThreadReadParams))
    ensures
        opened.0.mode@ == requested_mode(params@.mode),
        opened.1.thread_id@ == params@.thread_id,
        opened.1.include_turns,
{
    let mode: String = match params.mode {
        Some(name) => name,
        None => "compact".to_owned(),
    };
    (PendingHistory { mode }, ThreadReadParams { thread_id: params.thread_id, include_turns: true })
}

impl PendingHistory {
    /// Closes a history request with what reading the thread gave.
    pub fn thread_read<P>(self, read: Result<Vec<Turn<P>>, JSONRPCErrorError>) -> (outcome: Result<
        CodexGetHistoryResponse<P>,
        JSONRPCErrorError,
    >)
        ensures
            outcome_view(outcome) == history_outcome(self.mode@, read_view(read)),
    {
        let turns: Vec<Turn<P>> = match read {
            Ok(turns) => turns,
            Err(failure) => return Err(failure),
        };
        if self.mode == "full".to_owned() {
            Ok(CodexGetHistoryResponse::Full { turns })
        } else if self.mode == "compact".to_owned() {
            Ok(CodexGetHistoryResponse::Compact { text: compact_history_text(turns.as_slice()) })
        } else {
            let mut message: String = text::concatenate("invalid mode: ", self.mode.as_str());
            message.append(" (expected \"full\" or \"compact\")");
            Err(error::invalid_request(message))
        }
    }
}

/// A request without a mode ends like one that asks for the compact mode.
pub proof fn law_compact_is_the_default<P>(
    params: CodexGetHistoryParamsView,
    read: Result<Seq<Turn<P>>, JSONRPCErrorErrorView>,
)
    requires
        params.mode is None,
    ensures
        history_outcome(requested_mode(params.mode), read) == history_outcome(
            requested_mode(Some("compact"@)),
            read,
        ),
{
}

/// A thread that was read yields its turns in the one mode and the text of the
/// very same turns in the other.
pub proof fn law_modes_show_the_same_turns<P>(turns: Seq<Turn<P>>)
    ensures
        history_outcome("full"@, Ok(turns)) == Ok::<_, JSONRPCErrorErrorView>(
            CodexGetHistoryResponseView::Full { turns },
        ),
        history_outcome("compact"@, Ok(turns)) == Ok::<_, JSONRPCErrorErrorView>(
            CodexGetHistoryResponseView::<P>::Compact { text: history_text(turns) },
        ),
{
    reveal_strlit("full");
    reveal_strlit("compact");
    assert("full"@.len() != "compact"@.len());
}

/// A thread that could not be read ends the request with that failure,
/// whatever the mode.
pub proof fn law_read_failure_comes_first<P>(mode: Seq<char>, failure: JSONRPCErrorErrorView)
    ensures
        history_outcome::<P>(mode, Err(failure)) == Err::<
            CodexGetHistoryResponseView<P>,
            JSONRPCErrorErrorView,
        >(failure),
{
}

} // verus!
