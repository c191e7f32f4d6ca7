//! The stored history of a chat with tools, as the AI receives it, and the
//! stored texts the tool loop writes: an assistant turn that asks for tool
//! calls, and the result of one call.
use crate::builtin::{
    json_array_member, json_quoted, json_string_member, quote_json, read_array_member, read_string_member,
};
use crate::event::StoredMessage;
use crate::scenario::opt_text;
use crate::state::PendingToolCall;
use crate::text::{append_str, bool_text, str_eq, to_owned_string};
use vstd::prelude::*;

verus! {

/// A message of a chat with tools, as it is sent to the AI.
#[derive(Debug)]
pub enum ToolPromptMessage {
    System { content: String },
    User { content: String },
    Assistant { content: Option<String>, thinking: Option<String>, tool_calls: Vec<PendingToolCall> },
    Tool { tool_call_id: String, result: String },
}

/// The texts of a tool call: id, name and arguments.
pub open spec fn call_view(c: PendingToolCall) -> (Seq<char>, Seq<char>, Seq<char>) {
    (c.id@, c.name@, c.arguments@)
}

/// The texts of a list of tool calls.
pub open spec fn call_views(cs: Seq<PendingToolCall>) -> Seq<(Seq<char>, Seq<char>, Seq<char>)> {
    cs.map_values(|c: PendingToolCall| call_view(c))
}

/// A prompt message, by its texts.
pub enum ToolPromptView {
    System { content: Seq<char> },
    User { content: Seq<char> },
    Assistant {
        content: Option<Seq<char>>,
        thinking: Option<Seq<char>>,
        tool_calls: Seq<(Seq<char>, Seq<char>, Seq<char>)>,
    },
    Tool { tool_call_id: Seq<char>, result: Seq<char> },
}

impl View for ToolPromptMessage {
    type V = ToolPromptView;

    open spec fn view(&self) -> ToolPromptView {
        match self {
            ToolPromptMessage::System { content } => ToolPromptView::System { content: content@ },
            ToolPromptMessage::User { content } => ToolPromptView::User { content: content@ },
            ToolPromptMessage::Assistant { content, thinking, tool_calls } => ToolPromptView::Assistant {
                content: opt_text(*content),
                thinking: opt_text(*thinking),
                tool_calls: call_views(tool_calls@),
            },
            ToolPromptMessage::Tool { tool_call_id, result } => ToolPromptView::Tool {
                tool_call_id: tool_call_id@,
                result: result@,
            },
        }
    }
}

/// The views of a list of prompt messages.
pub open spec fn prompt_views(ps: Seq<ToolPromptMessage>) -> Seq<ToolPromptView> {
    ps.map_values(|p: ToolPromptMessage| p@)
}

/// The tool call that one element of a stored `toolCalls` list describes: its
/// string members `id`, `name` and `arguments`, when it has all three.
pub open spec fn call_of(element: Seq<char>) -> Option<(Seq<char>, Seq<char>, Seq<char>)> {
    match (
        json_string_member(element, "id"@),
        json_string_member(element, "name"@),
        json_string_member(element, "arguments"@),
    ) {
        (Ok(Some(id)), Ok(Some(name)), Ok(Some(arguments))) => Some((id, name, arguments)),
        _ => None,
    }
}

/// The tool calls a stored `toolCalls` list describes: all of them, or none
/// when one element is not a tool call.
pub open spec fn calls_of(elements: Seq<Seq<char>>) -> Seq<(Seq<char>, Seq<char>, Seq<char>)> {
    if forall|i: int| 0 <= i < elements.len() ==> (#[trigger] call_of(elements[i])) is Some {
        elements.map_values(|e: Seq<char>| call_of(e)->0)
    } else {
        Seq::empty()
    }
}

/// The tool calls of a stored assistant text: those of its `toolCalls` array,
/// none when it has no such array.
pub open spec fn stored_tool_calls(text: Seq<char>) -> Seq<(Seq<char>, Seq<char>, Seq<char>)> {
    match json_array_member(text, "toolCalls"@) {
        Some(elements) => calls_of(elements),
        None => Seq::empty(),
    }
}

/// A string member of a stored text, empty when it has none.
pub open spec fn member_or_empty(text: Seq<char>, key: Seq<char>) -> Seq<char> {
    match json_string_member(text, key) {
        Ok(Some(s)) => s,
        _ => Seq::empty(),
    }
}

/// What a stored message becomes for the AI (none or one message).
/// - A user or system message keeps its role.
/// - An assistant message that is not JSON is plain assistant text. One that
///   is JSON gives its `content` member and, when its `toolCalls` list holds
///   tool calls, those calls; without calls the content is the member's text,
///   or empty.
/// - A tool message that is JSON gives its `toolCallId` and `result` members
///   (empty when missing); one that is not JSON is dropped.
/// - Any other role is sent as the user's.
pub open spec fn tool_prompt_of(m: StoredMessage) -> Seq<ToolPromptView> {
    let role = m.role@;
    let text = m.content@;
    let thinking = opt_text(m.thinking_content);
    if role == "user"@ {
        seq![ToolPromptView::User { content: text }]
    } else if role == "system"@ {
        seq![ToolPromptView::System { content: text }]
    } else if role == "assistant"@ {
        match json_string_member(text, "content"@) {
            Err(_) => seq![ToolPromptView::Assistant { content: Some(text), thinking, tool_calls: Seq::empty() }],
            Ok(content) => {
                let calls = stored_tool_calls(text);
                if calls.len() == 0 {
                    seq![
                        ToolPromptView::Assistant {
                            content: Some(
                                match content {
                                    Some(c) => c,
                                    None => Seq::empty(),
                                },
                            ),
                            thinking,
                            tool_calls: Seq::empty(),
                        },
                    ]
                } else {
                    seq![ToolPromptView::Assistant { content, thinking, tool_calls: calls }]
                }
            },
        }
    } else if role == "tool"@ {
        match json_string_member(text, "toolCallId"@) {
            Err(_) => Seq::empty(),
            Ok(id) => seq![
                ToolPromptView::Tool {
                    tool_call_id: match id {
                        Some(i) => i,
                        None => Seq::empty(),
                    },
                    result: member_or_empty(text, "result"@),
                },
            ],
        }
    } else {
        seq![ToolPromptView::User { content: text }]
    }
}

/// What a stored history becomes for the AI, in order.
pub open spec fn tool_prompts(ms: Seq<StoredMessage>) -> Seq<ToolPromptView>
    decreases ms.len(),
{
    if ms.len() == 0 {
        Seq::empty()
    } else {
        tool_prompts(ms.drop_last()) + tool_prompt_of(ms.last())
    }
}

/// Adding a stored assistant message to a history adds exactly one message
/// for the AI, an assistant message, and it carries the stored message's
/// reasoning, whether or not the message asks for tool calls.
pub proof fn law_assistant_prompt_keeps_thinking(ms: Seq<StoredMessage>, m: StoredMessage)
    requires
        m.role@ == "assistant"@,
    ensures
        tool_prompts(ms.push(m)).len() == tool_prompts(ms).len() + 1,
        tool_prompts(ms.push(m)).take(tool_prompts(ms).len() as int) == tool_prompts(ms),
        tool_prompts(ms.push(m)).last() matches ToolPromptView::Assistant { thinking, .. }
            && thinking == opt_text(m.thinking_content),
{
    reveal_strlit("assistant");
    reveal_strlit("user");
    reveal_strlit("system");
    assert(m.role@ != "user"@ && m.role@ != "system"@) by {
        assert(m.role@[0] == 'a');
    }
    assert(ms.push(m).drop_last() =~= ms);
    assert(ms.push(m).last() == m);
    let p = tool_prompt_of(m);
    assert(p.len() == 1);
    let all = tool_prompts(ms.push(m));
    assert(all == tool_prompts(ms) + p);
    assert(all.take(tool_prompts(ms).len() as int) =~= tool_prompts(ms));
    assert(all.last() == p[0]);
}

/// What adding one stored message to a history adds for the AI, by role:
/// - a user or system message: that message, with its text;
/// - an assistant message that is not JSON: assistant text with the whole
///   stored text and no tool calls;
/// - an assistant message that is JSON: the tool calls of its `toolCalls`
///   list, and its `content` member (the member's text or empty when there
///   are no calls);
/// - a tool message that is JSON: its `toolCallId` and `result` members
///   (empty when missing); one that is not JSON adds nothing;
/// - any other role: the text, as the user's.
/// Nothing before it changes.
pub proof fn law_history_message_by_role(ms: Seq<StoredMessage>, m: StoredMessage)
    ensures
        tool_prompts(ms.push(m)).take(tool_prompts(ms).len() as int) == tool_prompts(ms),
        m.role@ == "user"@ ==> tool_prompts(ms.push(m)) == tool_prompts(ms).push(
            ToolPromptView::User { content: m.content@ },
        ),
        m.role@ == "system"@ ==> tool_prompts(ms.push(m)) == tool_prompts(ms).push(
            ToolPromptView::System { content: m.content@ },
        ),
        m.role@ == "assistant"@ && json_string_member(m.content@, "content"@) is Err ==> tool_prompts(ms.push(m))
            == tool_prompts(ms).push(
            ToolPromptView::Assistant {
                content: Some(m.content@),
                thinking: opt_text(m.thinking_content),
                tool_calls: Seq::empty(),
            },
        ),
        m.role@ == "assistant"@ && json_string_member(m.content@, "content"@) is Ok ==> {
            let member = json_string_member(m.content@, "content"@)->Ok_0;
            let calls = stored_tool_calls(m.content@);
            tool_prompts(ms.push(m)) == tool_prompts(ms).push(
                ToolPromptView::Assistant {
                    content: if calls.len() == 0 {
                        Some(
                            match member {
                                Some(c) => c,
                                None => Seq::empty(),
                            },
                        )
                    } else {
                        member
                    },
                    thinking: opt_text(m.thinking_content),
                    tool_calls: calls,
                },
            )
        },
        m.role@ == "tool"@ && json_string_member(m.content@, "toolCallId"@) is Err ==> tool_prompts(ms.push(m))
            == tool_prompts(ms),
        m.role@ == "tool"@ && json_string_member(m.content@, "toolCallId"@) is Ok ==> tool_prompts(ms.push(m))
            == tool_prompts(ms).push(
            ToolPromptView::Tool {
                tool_call_id: match json_string_member(m.content@, "toolCallId"@) {
                    Ok(Some(id)) => id,
                    _ => Seq::empty(),
                },
                result: match json_string_member(m.content@, "result"@) {
                    Ok(Some(r)) => r,
                    _ => Seq::empty(),
                },
            },
        ),
        m.role@ != "user"@ && m.role@ != "system"@ && m.role@ != "assistant"@ && m.role@ != "tool"@
            ==> tool_prompts(ms.push(m)) == tool_prompts(ms).push(ToolPromptView::User { content: m.content@ }),
{
    reveal_strlit("assistant");
    reveal_strlit("user");
    reveal_strlit("system");
    reveal_strlit("tool");
    assert(ms.push(m).drop_last() =~= ms);
    assert(ms.push(m).last() == m);
    let all = tool_prompts(ms.push(m));
    assert(all == tool_prompts(ms) + tool_prompt_of(m));
    assert(all.take(tool_prompts(ms).len() as int) =~= tool_prompts(ms));
    let base = tool_prompts(ms);
    let p = tool_prompt_of(m);
    assert("user"@ != "system"@ && "user"@ != "assistant"@ && "user"@ != "tool"@) by {
        assert("user"@[0] == 'u');
    }
    assert("system"@ != "assistant"@ && "system"@ != "tool"@) by {
        assert("system"@[0] == 's');
    }
    assert("assistant"@ != "tool"@) by {
        assert("assistant"@[0] == 'a');
    }
    if m.role@ == "user"@ {
        assert(base + p =~= base.push(ToolPromptView::User { content: m.content@ }));
    } else if m.role@ == "system"@ {
        assert(m.role@ != "user"@) by {
            assert(m.role@[0] == 's');
        }
        assert(base + p =~= base.push(ToolPromptView::System { content: m.content@ }));
    } else if m.role@ == "assistant"@ {
        assert(m.role@ != "user"@ && m.role@ != "system"@) by {
            assert(m.role@[0] == 'a');
        }
        assert(p.len() == 1);
        assert(base + p =~= base.push(p[0]));
        if json_string_member(m.content@, "content"@) is Ok {
            let member = json_string_member(m.content@, "content"@)->Ok_0;
            let calls = stored_tool_calls(m.content@);
            let c = if calls.len() == 0 {
                Some(
                    match member {
                        Some(c) => c,
                        None => Seq::empty(),
                    },
                )
            } else {
                member
            };
            let v = ToolPromptView::Assistant { content: c, thinking: opt_text(m.thinking_content), tool_calls: calls };
            if calls.len() == 0 {
                assert(p[0] is Assistant);
                assert(p[0]->Assistant_thinking == opt_text(m.thinking_content));
                assert(p[0]->Assistant_tool_calls == calls);
                assert(p[0]->Assistant_content == c);
                assert(p =~= seq![v]);
            } else {
                assert(p =~= seq![v]);
            }
            assert(p[0] == v);
        }
    } else if m.role@ == "tool"@ {
        assert(m.role@ != "user"@ && m.role@ != "system"@ && m.role@ != "assistant"@) by {
            assert(m.role@[0] == 't');
        }
        if json_string_member(m.content@, "toolCallId"@) is Err {
            assert(base + p =~= base);
        } else {
            assert(base + p =~= base.push(p[0]));
        }
    } else {
        assert(base + p =~= base.push(ToolPromptView::User { content: m.content@ }));
    }
}

/// The tool calls of a stored assistant text.
fn read_tool_calls(text: &str) -> (r: Vec<PendingToolCall>)
    ensures
        call_views(r@) == stored_tool_calls(text@),
{
    let elements = match read_array_member(text, "toolCalls") {
        Some(v) => v,
        None => {
            assert(call_views(Seq::<PendingToolCall>::empty()) =~= Seq::empty());
            return Vec::new();
        },
    };
    let ghost es = crate::stream_fsm::texts(elements@);
    let mut calls: Vec<PendingToolCall> = Vec::new();
    let mut i: usize = 0;
    while i < elements.len()
        invariant
            i <= elements@.len(),
            es == crate::stream_fsm::texts(elements@),
            json_array_member(text@, "toolCalls"@) == Some(es),
            calls@.len() == i,
            forall|j: int| 0 <= j < i ==> (#[trigger] call_of(es[j])) is Some,
            forall|j: int| 0 <= j < i ==> #[trigger] call_view(calls@[j]) == call_of(es[j])->0,
        decreases elements@.len() - i,
    {
        let e = elements[i].as_str();
        let id = read_string_member(e, "id");
        let name = read_string_member(e, "name");
        let arguments = read_string_member(e, "arguments");
        match (id, name, arguments) {
            (Ok(Some(id)), Ok(Some(name)), Ok(Some(arguments))) => {
                calls.push(PendingToolCall { id, name, arguments });
            },
            _ => {
                assert(es[i as int] == e@);
                assert(call_of(es[i as int]) is None);
                assert(!(forall|j: int| 0 <= j < es.len() ==> (#[trigger] call_of(es[j])) is Some));
                assert(call_views(Seq::<PendingToolCall>::empty()) =~= Seq::empty());
                return Vec::new();
            },
        }
        i += 1;
    }
    assert(call_views(calls@) =~= calls_of(es));
    calls
}

/// A copy of an optional text.
fn copy_opt(s: &Option<String>) -> (r: Option<String>)
    ensures
        opt_text(r) == opt_text(*s),
{
    match s {
        Some(t) => Some(t.clone()),
        None => None,
    }
}

/// What one stored message becomes for the AI.
fn tool_prompt(m: &StoredMessage) -> (r: Option<ToolPromptMessage>)
    ensures
        match r {
            Some(p) => tool_prompt_of(*m) == seq![p@],
            None => tool_prompt_of(*m) == Seq::<ToolPromptView>::empty(),
        },
{
    let role = m.role.as_str();
    let text = m.content.as_str();
    assert(text@ == m.content@);
    if str_eq(role, "user") {
        let p = ToolPromptMessage::User { content: m.content.clone() };
        assert(tool_prompt_of(*m) =~= seq![p@]);
        Some(p)
    } else if str_eq(role, "system") {
        let p = ToolPromptMessage::System { content: m.content.clone() };
        assert(tool_prompt_of(*m) =~= seq![p@]);
        Some(p)
    } else if str_eq(role, "assistant") {
        let thinking = copy_opt(&m.thinking_content);
        match read_string_member(text, "content") {
            Err(_) => {
                let p = ToolPromptMessage::Assistant { content: Some(m.content.clone()), thinking, tool_calls: Vec::new() };
                assert(call_views(Seq::<PendingToolCall>::empty()) =~= Seq::empty());
                assert(tool_prompt_of(*m) =~= seq![p@]);
                Some(p)
            },
            Ok(content) => {
                let calls = read_tool_calls(text);
                assert(call_views(calls@).len() == calls@.len());
                if calls.len() == 0 {
                    let c = match content {
                        Some(c) => c,
                        None => String::new(),
                    };
                    let p = ToolPromptMessage::Assistant { content: Some(c), thinking, tool_calls: Vec::new() };
                    assert(call_views(Seq::<PendingToolCall>::empty()) =~= Seq::empty());
                    assert(tool_prompt_of(*m) =~= seq![p@]);
                    Some(p)
                } else {
                    let p = ToolPromptMessage::Assistant { content, thinking, tool_calls: calls };
                    assert(tool_prompt_of(*m) =~= seq![p@]);
                    Some(p)
                }
            },
        }
    } else if str_eq(role, "tool") {
        match read_string_member(text, "toolCallId") {
            Err(_) => None,
            Ok(id) => {
                let tool_call_id = match id {
                    Some(i) => i,
                    None => String::new(),
                };
                let result = match read_string_member(text, "result") {
                    Ok(Some(r)) => r,
                    _ => String::new(),
                };
                let p = ToolPromptMessage::Tool { tool_call_id, result };
                assert(tool_prompt_of(*m) =~= seq![p@]);
                Some(p)
            },
        }
    } else {
        let p = ToolPromptMessage::User { content: m.content.clone() };
        assert(tool_prompt_of(*m) =~= seq![p@]);
        Some(p)
    }
}

/// The stored history of a chat with tools, as the AI receives it.
pub fn build_chat_messages_for_tools(messages: &[StoredMessage]) -> (r: Vec<ToolPromptMessage>)
    ensures
        prompt_views(r@) == tool_prompts(messages@),
{
    let mut r: Vec<ToolPromptMessage> = Vec::new();
    let mut i: usize = 0;
    while i < messages.len()
        invariant
            i <= messages@.len(),
            prompt_views(r@) == tool_prompts(messages@.take(i as int)),
        decreases messages@.len() - i,
    {
        let ghost before = r@;
        assert(messages@.take(i + 1).drop_last() =~= messages@.take(i as int));
        assert(messages@.take(i + 1).last() == messages@[i as int]);
        match tool_prompt(&messages[i]) {
            Some(p) => {
                r.push(p);
                assert(prompt_views(r@) =~= prompt_views(before) + seq![p@]);
            },
            None => {
                assert(prompt_views(r@) =~= prompt_views(before) + Seq::<ToolPromptView>::empty());
            },
        }
        i += 1;
    }
    assert(messages@.take(messages@.len() as int) =~= messages@);
    r
}

/// The stored text of one tool call: its id, name and arguments.
pub open spec fn call_json(c: (Seq<char>, Seq<char>, Seq<char>)) -> Seq<char> {
    "{\"id\":"@ + json_quoted(c.0) + ",\"name\":"@ + json_quoted(c.1) + ",\"arguments\":"@ + json_quoted(c.2) + "}"@
}

/// The stored texts of a list of tool calls, separated by commas.
pub open spec fn calls_json(cs: Seq<(Seq<char>, Seq<char>, Seq<char>)>) -> Seq<char>
    decreases cs.len(),
{
    if cs.len() == 0 {
        Seq::empty()
    } else if cs.len() == 1 {
        call_json(cs[0])
    } else {
        calls_json(cs.drop_last()) + ","@ + call_json(cs.last())
    }
}

/// The stored text of an assistant turn that asks for tool calls: its text
/// and its calls.
pub open spec fn assistant_turn_json(content: Seq<char>, cs: Seq<(Seq<char>, Seq<char>, Seq<char>)>) -> Seq<char> {
    "{\"content\":"@ + json_quoted(content) + ",\"toolCalls\":["@ + calls_json(cs) + "]}"@
}

/// The stored text of a tool call's result.
pub open spec fn tool_result_json(tool_call_id: Seq<char>, name: Seq<char>, result: Seq<char>, is_error: bool) -> Seq<
    char,
> {
    "{\"isError\":"@ + bool_text(is_error) + ",\"name\":"@ + json_quoted(name) + ",\"result\":"@ + json_quoted(result)
        + ",\"toolCallId\":"@ + json_quoted(tool_call_id) + "}"@
}

/// Appends the stored text of one tool call.
fn push_call_json(out: &mut String, c: &PendingToolCall)
    ensures
        final(out)@ == old(out)@ + call_json(call_view(*c)),
{
    append_str(out, "{\"id\":");
    let q = quote_json(c.id.as_str());
    append_str(out, q.as_str());
    append_str(out, ",\"name\":");
    let q = quote_json(c.name.as_str());
    append_str(out, q.as_str());
    append_str(out, ",\"arguments\":");
    let q = quote_json(c.arguments.as_str());
    append_str(out, q.as_str());
    append_str(out, "}");
    assert(final(out)@ =~= old(out)@ + call_json(call_view(*c)));
}

/// The stored text of an assistant turn with the text `content` that asks for
/// the tool calls `calls`.
pub fn assistant_tool_calls_message(content: &str, calls: &[PendingToolCall]) -> (r: String)
    ensures
        r@ == assistant_turn_json(content@, call_views(calls@)),
{
    let mut r = String::new();
    append_str(&mut r, "{\"content\":");
    let q = quote_json(content);
    append_str(&mut r, q.as_str());
    append_str(&mut r, ",\"toolCalls\":[");
    let ghost head = r@;
    let mut i: usize = 0;
    while i < calls.len()
        invariant
            i <= calls@.len(),
            r@ == head + calls_json(call_views(calls@.take(i as int))),
        decreases calls@.len() - i,
    {
        let ghost prefix = call_views(calls@.take(i as int));
        assert(call_views(calls@.take(i + 1)) =~= prefix.push(call_view(calls@[i as int])));
        assert(call_views(calls@.take(i + 1)).drop_last() =~= prefix);
        if i > 0 {
            append_str(&mut r, ",");
        }
        push_call_json(&mut r, &calls[i]);
        assert(r@ =~= head + calls_json(call_views(calls@.take(i + 1))));
        i += 1;
    }
    append_str(&mut r, "]}");
    assert(calls@.take(calls@.len() as int) =~= calls@);
    assert(r@ =~= assistant_turn_json(content@, call_views(calls@)));
    r
}

/// The stored text of the result `result` of the tool call `tool_call_id` to
/// the tool `name`.
pub fn tool_result_message(tool_call_id: &str, name: &str, result: &str, is_error: bool) -> (r: String)
    ensures
        r@ == tool_result_json(tool_call_id@, name@, result@, is_error),
{
    let mut r = String::new();
    append_str(&mut r, "{\"isError\":");
    if is_error {
        append_str(&mut r, "true");
    } else {
        append_str(&mut r, "false");
    }
    append_str(&mut r, ",\"name\":");
    let q = quote_json(name);
    append_str(&mut r, q.as_str());
    append_str(&mut r, ",\"result\":");
    let q = quote_json(result);
    append_str(&mut r, q.as_str());
    append_str(&mut r, ",\"toolCallId\":");
    let q = quote_json(tool_call_id);
    append_str(&mut r, q.as_str());
    append_str(&mut r, "}");
    proof {
        reveal_strlit("true");
        reveal_strlit("false");
    }
    assert(r@ =~= tool_result_json(tool_call_id@, name@, result@, is_error));
    r
}

} // verus!
