//! What a session recorded, as far as memories are concerned.

use crate::order::filter_of_prefix;
use crate::text::{
    contains, contains_text, join, joined, starts, starts_with, str_eq, texts,
};
use vstd::prelude::*;

verus! {

broadcast use vstd::seq_lib::group_seq_properties;

/// A part of a message.
#[derive(Debug, PartialEq, Eq)]
pub enum ContentItem {
    InputText { text: String },
    InputImage { image_url: String },
    OutputText { text: String },
}

/// An item of a conversation with a model.
#[derive(Debug, PartialEq, Eq)]
pub enum ResponseItem {
    Message {
        id: Option<String>,
        role: String,
        content: Vec<ContentItem>,
        end_turn: Option<bool>,
        phase: Option<String>,
    },
    FunctionCall {
        id: Option<String>,
        name: String,
        namespace: Option<String>,
        arguments: String,
        call_id: String,
    },
    WebSearchCall,
    /// Any other item.
    Other,
}

/// A text without the citations of memories that it held, and the sessions that
/// they named.
#[derive(Debug, PartialEq, Eq)]
pub struct StrippedText {
    pub text: String,
    pub rollout_ids: Vec<u128>,
}

/// How many parts of the message are text that the model wrote.
pub open spec fn output_texts(content: Seq<ContentItem>) -> nat
    decreases content.len(),
{
    if content.len() == 0 {
        0
    } else {
        output_texts(content.drop_last()) + if content.last() is OutputText {
            1nat
        } else {
            0nat
        }
    }
}

/// The parts of the message, each text that the model wrote replaced by what is
/// left of it.
pub open spec fn stripped_content(content: Seq<ContentItem>, stripped: Seq<StrippedText>) -> Seq<
    ContentItem,
>
    decreases content.len(),
{
    if content.len() == 0 {
        Seq::empty()
    } else {
        let before = stripped_content(content.drop_last(), stripped);
        before.push(
            if content.last() is OutputText {
                ContentItem::OutputText {
                    text: stripped[output_texts(content.drop_last()) as int].text,
                }
            } else {
                content.last()
            },
        )
    }
}

/// The sessions that the first texts named, in order.
pub open spec fn named_sessions(stripped: Seq<StrippedText>) -> Seq<u128>
    decreases stripped.len(),
{
    if stripped.len() == 0 {
        Seq::empty()
    } else {
        named_sessions(stripped.drop_last()) + stripped.last().rollout_ids@
    }
}

/// The item is a message that the model wrote.
pub open spec fn is_assistant_message(item: ResponseItem) -> bool {
    item is Message && item->role@ == "assistant"@
}

/// How many texts of the item can hold citations.
pub fn citation_text_count(item: &ResponseItem) -> (n: usize)
    ensures
        n == if is_assistant_message(*item) {
            output_texts(item->content@)
        } else {
            0
        },
{
    match item {
        ResponseItem::Message { role, content, .. } => {
            if !str_eq(role.as_str(), "assistant") {
                return 0;
            }
            let mut n: usize = 0;
            let mut i: usize = 0;
            assert(content@.take(0) =~= Seq::empty());
            while i < content.len()
                invariant
                    i <= content@.len(),
                    n <= i,
                    n == output_texts(content@.take(i as int)),
                decreases content@.len() - i,
            {
                assert(content@.take(i + 1).drop_last() =~= content@.take(i as int));
                assert(content@.take(i + 1).last() == content@[i as int]);
                if let ContentItem::OutputText { .. } = &content[i] {
                    n = n + 1;
                }
                i = i + 1;
            }
            assert(content@.take(content@.len() as int) =~= content@);
            n
        },
        _ => 0,
    }
}

/// Takes the citations of memories out of a message that the model wrote, and
/// says which sessions they named. `stripped` holds what is left of each text that
/// the model wrote, in order. Other items stay as they are and name none.
pub fn sanitize_response_item(item: ResponseItem, stripped: Vec<StrippedText>) -> (r: (
    ResponseItem,
    Vec<u128>,
))
    requires
        is_assistant_message(item) ==> stripped@.len() == output_texts(item->content@),
    ensures
        !is_assistant_message(item) ==> r.0 == item && r.1@.len() == 0,
        is_assistant_message(item) ==> ({
            &&& r.0 is Message
            &&& r.0->Message_id == item->Message_id
            &&& r.0->role == item->role
            &&& r.0->end_turn == item->end_turn
            &&& r.0->phase == item->phase
            &&& r.0->content@ == stripped_content(item->content@, stripped@)
            &&& r.1@ == named_sessions(stripped@)
        }),
{
    let ghost given = item;
    match item {
        ResponseItem::Message { id, role, content, end_turn, phase } => {
            if !str_eq(role.as_str(), "assistant") {
                return (ResponseItem::Message { id, role, content, end_turn, phase }, Vec::new());
            }
            let mut out: Vec<ContentItem> = Vec::new();
            let mut ids: Vec<u128> = Vec::new();
            let mut n: usize = 0;
            let mut i: usize = 0;
            assert(content@.take(0) =~= Seq::empty());
            assert(stripped@.take(0) =~= Seq::empty());
            while i < content.len()
                invariant
                    i <= content@.len(),
                    n <= i,
                    stripped@.len() == output_texts(content@),
                    n == output_texts(content@.take(i as int)),
                    out@ == stripped_content(content@.take(i as int), stripped@),
                    ids@ == named_sessions(stripped@.take(n as int)),
                decreases content@.len() - i,
            {
                proof {
                    assert(content@.take(i + 1).drop_last() =~= content@.take(i as int));
                    assert(content@.take(i + 1).last() == content@[i as int]);
                    output_texts_grow(content@, i + 1);
                }
                match &content[i] {
                    ContentItem::OutputText { .. } => {
                        let s = &stripped[n];
                        out.push(ContentItem::OutputText { text: s.text.clone() });
                        ids.extend_from_slice(s.rollout_ids.as_slice());
                        proof {
                            assert(stripped@.take(n + 1).drop_last() =~= stripped@.take(n as int));
                            assert(ids@ =~= named_sessions(stripped@.take(n + 1)));
                        }
                        n = n + 1;
                    },
                    ContentItem::InputText { text } => {
                        out.push(ContentItem::InputText { text: text.clone() });
                    },
                    ContentItem::InputImage { image_url } => {
                        out.push(ContentItem::InputImage { image_url: image_url.clone() });
                    },
                }
                i = i + 1;
            }
            assert(content@.take(content@.len() as int) =~= content@);
            assert(stripped@.take(stripped@.len() as int) =~= stripped@);
            (ResponseItem::Message { id, role, content: out, end_turn, phase }, ids)
        },
        other => (other, Vec::new()),
    }
}

proof fn output_texts_grow(content: Seq<ContentItem>, n: int)
    requires
        0 <= n <= content.len(),
    ensures
        output_texts(content.take(n)) <= output_texts(content),
    decreases content.len() - n,
{
    if n == content.len() {
        assert(content.take(n) =~= content);
    } else {
        output_texts_grow(content, n + 1);
        assert(content.take(n + 1).drop_last() =~= content.take(n));
    }
}

/// The events of a session, as far as memories tell them apart.
#[derive(Debug, PartialEq, Eq, Clone, Copy, Structural)]
pub enum EventKind {
    McpToolCallBegin,
    McpToolCallEnd,
    WebSearchBegin,
    WebSearchComplete,
    /// Any other event.
    Other,
}

/// What a recording holds.
#[derive(Debug, PartialEq, Eq)]
pub enum RolloutItem {
    /// An item of the conversation.
    ResponseItem(ResponseItem),
    /// An event with its place in the session, if it is of a known kind.
    Event(Option<EventKind>),
    /// An event, if it is of a known kind.
    EventMsg(Option<EventKind>),
    /// Anything else.
    Other,
}

/// The start of the names of MCP tools.
pub const MCP_TOOL_PREFIX: &'static str = "mcp__";

/// The event belongs to an MCP tool or a web search.
pub open spec fn is_outside_event(e: EventKind) -> bool {
    e == EventKind::McpToolCallBegin || e == EventKind::McpToolCallEnd || e
        == EventKind::WebSearchBegin || e == EventKind::WebSearchComplete
}

/// Whether the event belongs to an MCP tool or a web search.
pub fn event_uses_mcp_or_web_search(event: EventKind) -> (r: bool)
    ensures
        r == is_outside_event(event),
{
    match event {
        EventKind::McpToolCallBegin => true,
        EventKind::McpToolCallEnd => true,
        EventKind::WebSearchBegin => true,
        EventKind::WebSearchComplete => true,
        EventKind::Other => false,
    }
}

/// The item shows that an MCP tool or a web search was used.
pub open spec fn uses_outside(item: RolloutItem) -> bool {
    match item {
        RolloutItem::ResponseItem(ResponseItem::WebSearchCall) => true,
        RolloutItem::ResponseItem(ResponseItem::FunctionCall { name, .. }) => starts(
            name@,
            MCP_TOOL_PREFIX@,
        ),
        RolloutItem::Event(Some(e)) => is_outside_event(e),
        RolloutItem::EventMsg(Some(e)) => is_outside_event(e),
        _ => false,
    }
}

/// Whether the item shows that an MCP tool or a web search was used.
pub fn rollout_uses_mcp_or_web_search(item: &RolloutItem) -> (r: bool)
    ensures
        r == uses_outside(*item),
{
    match item {
        RolloutItem::ResponseItem(ResponseItem::WebSearchCall) => true,
        RolloutItem::ResponseItem(ResponseItem::FunctionCall { name, .. }) => starts_with(
            name.as_str(),
            MCP_TOOL_PREFIX,
        ),
        RolloutItem::Event(Some(e)) => event_uses_mcp_or_web_search(*e),
        RolloutItem::EventMsg(Some(e)) => event_uses_mcp_or_web_search(*e),
        _ => false,
    }
}

/// The text is not what the user said: it holds the instructions of a project or
/// of a skill.
pub open spec fn is_instruction_text(text: Seq<char>, user_instructions_prefix: Seq<char>) -> bool {
    ||| starts(text, user_instructions_prefix)
    ||| starts(text, "<skill>\n"@) && contains_text(text, "</skill>"@) && contains_text(
        text,
        "<path>"@,
    ) && contains_text(text, "SKILL.md"@)
}

/// Whether the text holds the instructions of a project, which start with the
/// given prefix, or of a skill.
pub fn is_memory_excluded_instruction_text(text: &str, user_instructions_prefix: &str) -> (r: bool)
    ensures
        r == is_instruction_text(text@, user_instructions_prefix@),
{
    if starts_with(text, user_instructions_prefix) {
        return true;
    }
    starts_with(text, "<skill>\n") && contains(text, "</skill>") && contains(text, "<path>")
        && contains(text, "SKILL.md")
}

/// The item is a message of the user that holds nothing but instructions.
pub open spec fn is_instruction_item(item: RolloutItem, user_instructions_prefix: Seq<char>) -> bool {
    match item {
        RolloutItem::ResponseItem(ResponseItem::Message { role, content, .. }) => role@ == "user"@
            && content@.len() == 1 && content@[0] is InputText && is_instruction_text(
            content@[0]->InputText_text@,
            user_instructions_prefix,
        ),
        _ => false,
    }
}

/// Whether the item is a message of the user that holds nothing but instructions.
pub fn is_memory_excluded_instruction_item(
    item: &RolloutItem,
    user_instructions_prefix: &str,
) -> (r: bool)
    ensures
        r == is_instruction_item(*item, user_instructions_prefix@),
{
    match item {
        RolloutItem::ResponseItem(ResponseItem::Message { role, content, .. }) => {
            if !str_eq(role.as_str(), "user") || content.len() != 1 {
                return false;
            }
            match &content[0] {
                ContentItem::InputText { text } => is_memory_excluded_instruction_text(
                    text.as_str(),
                    user_instructions_prefix,
                ),
                _ => false,
            }
        },
        _ => false,
    }
}

/// An item of a recording, with what else is known of it.
#[derive(Debug, PartialEq, Eq)]
pub struct RolloutLine {
    pub item: RolloutItem,
    /// Whether items of its kind are kept for memories.
    pub kept_for_memories: bool,
    /// The item as JSON text, or why there is none.
    pub json: Result<String, String>,
}

/// The line is one that memories are made of.
pub open spec fn is_relevant(l: RolloutLine, user_instructions_prefix: Seq<char>) -> bool {
    l.kept_for_memories && !is_instruction_item(l.item, user_instructions_prefix)
}

/// The lines that memories are made of.
pub open spec fn relevant_lines(lines: Seq<RolloutLine>, user_instructions_prefix: Seq<char>) -> Seq<
    RolloutLine,
> {
    lines.filter(|l: RolloutLine| is_relevant(l, user_instructions_prefix))
}

/// The place of the first line without a text; the length where all have one.
pub open spec fn first_failure(lines: Seq<RolloutLine>) -> int
    decreases lines.len(),
{
    if lines.len() == 0 {
        0
    } else if lines[0].json is Err {
        0
    } else {
        1 + first_failure(lines.drop_first())
    }
}

/// The texts of the lines.
pub open spec fn line_texts(lines: Seq<RolloutLine>) -> Seq<Seq<char>> {
    lines.map_values(|l: RolloutLine| l.json->Ok_0@)
}

proof fn first_failure_at(lines: Seq<RolloutLine>, n: int)
    requires
        0 <= n <= lines.len(),
        forall|i: int| 0 <= i < n ==> (#[trigger] lines[i]).json is Ok,
        n < lines.len() ==> lines[n].json is Err,
    ensures
        first_failure(lines) == n,
    decreases lines.len(),
{
    if n > 0 {
        assert(lines[0].json is Ok);
        let t = lines.drop_first();
        assert forall|i: int| 0 <= i < n - 1 implies (#[trigger] t[i]).json is Ok by {
            assert(lines[i + 1].json is Ok);
        }
        first_failure_at(t, n - 1);
    }
}

/// The recording as memories are made of it: the texts of its relevant lines, one
/// per line. Fails as the first of them that has no text.
pub fn serialize_memory_relevant_rollout(
    lines: &[RolloutLine],
    user_instructions_prefix: &str,
) -> (r: Result<String, String>)
    ensures
        ({
            let relevant = relevant_lines(lines@, user_instructions_prefix@);
            let failure = first_failure(relevant);
            match r {
                Ok(t) => failure == relevant.len() && t@ == joined(line_texts(relevant), "\n"@),
                Err(e) => failure < relevant.len() && relevant[failure].json == Err::<
                    String,
                    String,
                >(e),
            }
        }),
{
    let ghost f = |l: RolloutLine| is_relevant(l, user_instructions_prefix@);
    let ghost relevant = relevant_lines(lines@, user_instructions_prefix@);
    let mut out: Vec<String> = Vec::new();
    let mut i: usize = 0;
    assert(lines@.take(0).filter(f) =~= Seq::empty());
    while i < lines.len()
        invariant
            i <= lines@.len(),
            f == (|l: RolloutLine| is_relevant(l, user_instructions_prefix@)),
            relevant == lines@.filter(f),
            texts(out@) =~= line_texts(lines@.take(i as int).filter(f)),
            forall|j: int|
                0 <= j < lines@.take(i as int).filter(f).len() ==> (#[trigger] lines@.take(
                    i as int,
                ).filter(f)[j]).json is Ok,
        decreases lines@.len() - i,
    {
        let ghost seen = lines@.take(i as int).filter(f);
        proof {
            reveal(Seq::filter);
            assert(lines@.take(i + 1).drop_last() =~= lines@.take(i as int));
            assert(lines@.take(i + 1).last() == lines@[i as int]);
            filter_of_prefix(lines@, f, i as int);
            filter_of_prefix(lines@, f, i + 1);
        }
        if lines[i].kept_for_memories && !is_memory_excluded_instruction_item(
            &lines[i].item,
            user_instructions_prefix,
        ) {
            let ghost longer = lines@.take(i + 1).filter(f);
            assert(longer == seen.push(lines@[i as int]));
            match &lines[i].json {
                Ok(t) => {
                    let ghost before = texts(out@);
                    out.push(t.clone());
                    assert(texts(out@) =~= before.push(t@));
                    assert(line_texts(longer) =~= line_texts(seen).push(t@));
                    assert forall|j: int| 0 <= j < longer.len() implies (
                    #[trigger] longer[j]).json is Ok by {
                        if j < seen.len() {
                            assert(longer[j] == seen[j]);
                        }
                    }
                },
                Err(e) => {
                    proof {
                        assert(relevant.take(longer.len() as int) == longer);
                        assert(relevant[seen.len() as int] == longer[seen.len() as int]);
                        assert forall|j: int| 0 <= j < seen.len() implies (
                        #[trigger] relevant[j]).json is Ok by {
                            assert(relevant[j] == longer[j]);
                            assert(longer[j] == seen[j]);
                        }
                        first_failure_at(relevant, seen.len() as int);
                    }
                    return Err(e.clone());
                },
            }
        }
        i = i + 1;
    }
    assert(lines@.take(lines@.len() as int) =~= lines@);
    proof {
        first_failure_at(relevant, relevant.len() as int);
    }
    Ok(join(&out, "\n"))
}

/// Whether some line shows that an MCP tool or a web search was used.
pub open spec fn any_outside(lines: Seq<RolloutLine>) -> bool {
    exists|i: int| 0 <= i < lines.len() && uses_outside((#[trigger] lines[i]).item)
}

/// Whether some line shows that an MCP tool or a web search was used.
pub fn any_line_uses_mcp_or_web_search(lines: &[RolloutLine]) -> (r: bool)
    ensures
        r == any_outside(lines@),
{
    let mut i: usize = 0;
    while i < lines.len()
        invariant
            i <= lines@.len(),
            forall|j: int| 0 <= j < i ==> !uses_outside((#[trigger] lines@[j]).item),
        decreases lines@.len() - i,
    {
        if rollout_uses_mcp_or_web_search(&lines[i].item) {
            return true;
        }
        i = i + 1;
    }
    false
}

} // verus!
