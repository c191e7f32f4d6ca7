use rhd_chat::event::StoredMessage;
use rhd_chat::history::{
    assistant_tool_calls_message, build_chat_messages_for_tools, tool_result_message, ToolPromptMessage,
};
use rhd_chat::state::PendingToolCall;

fn stored(id: i64, role: &str, content: &str, created_at: &str) -> StoredMessage {
    StoredMessage {
        id,
        chat_id: 1,
        role: role.to_string(),
        content: content.to_string(),
        created_at: created_at.to_string(),
        model: None,
        thinking_content: None,
    }
}

fn simple_history() -> Vec<StoredMessage> {
    vec![stored(1, "user", "Use the tool", "2024-01-01T00:00:00Z")]
}

fn history_with_tool_calls() -> Vec<StoredMessage> {
    let assistant_content =
        "{\"content\":\"I'll use the tool\",\"toolCalls\":[{\"id\":\"call_1\",\"name\":\"mock1/echo\",\"arguments\":\"{\\\"message\\\":\\\"test\\\"}\"}]}";
    let tool_result = "{\"toolCallId\":\"call_1\",\"name\":\"mock1/echo\",\"result\":\"Tool executed\"}";
    vec![
        stored(1, "user", "Use the tool", "2024-01-01T00:00:00Z"),
        stored(2, "assistant", assistant_content, "2024-01-01T00:00:01Z"),
        stored(3, "tool", tool_result, "2024-01-01T00:00:02Z"),
    ]
}

#[test]
fn tools_test_build_chat_messages_for_tools_simple() {
    let chat_messages = build_chat_messages_for_tools(&simple_history());
    assert_eq!(chat_messages.len(), 1);
}

#[test]
fn tests_test_build_chat_messages_for_tools_simple() {
    let chat_messages = build_chat_messages_for_tools(&simple_history());
    assert_eq!(chat_messages.len(), 1);
}

#[test]
fn message_tests_test_build_chat_messages_for_tools_simple() {
    let chat_messages = build_chat_messages_for_tools(&simple_history());
    assert_eq!(chat_messages.len(), 1);
}

#[test]
fn tools_test_build_chat_messages_for_tools_with_tool_calls() {
    let chat_messages = build_chat_messages_for_tools(&history_with_tool_calls());
    assert_eq!(chat_messages.len(), 3);
}

#[test]
fn tests_test_build_chat_messages_for_tools_with_tool_calls() {
    let chat_messages = build_chat_messages_for_tools(&history_with_tool_calls());
    assert_eq!(chat_messages.len(), 3);
}

#[test]
fn message_tests_test_build_chat_messages_for_tools_with_tool_calls() {
    let chat_messages = build_chat_messages_for_tools(&history_with_tool_calls());
    assert_eq!(chat_messages.len(), 3);
}

#[test]
fn tool_history_is_decoded() {
    let m = build_chat_messages_for_tools(&history_with_tool_calls());
    assert!(matches!(&m[0], ToolPromptMessage::User { content } if content == "Use the tool"));
    match &m[1] {
        ToolPromptMessage::Assistant { content, thinking, tool_calls } => {
            assert_eq!(content.as_deref(), Some("I'll use the tool"));
            assert!(thinking.is_none());
            assert_eq!(tool_calls.len(), 1);
            assert_eq!(tool_calls[0].id, "call_1");
            assert_eq!(tool_calls[0].name, "mock1/echo");
            assert_eq!(tool_calls[0].arguments, "{\"message\":\"test\"}");
        }
        other => panic!("unexpected {:?}", other),
    }
    match &m[2] {
        ToolPromptMessage::Tool { tool_call_id, result } => {
            assert_eq!(tool_call_id, "call_1");
            assert_eq!(result, "Tool executed");
        }
        other => panic!("unexpected {:?}", other),
    }
}

#[test]
fn plain_and_unreadable_texts() {
    let mut thinking = stored(2, "assistant", "just text", "t");
    thinking.thinking_content = Some("hmm".to_string());
    let history = vec![
        stored(1, "system", "be nice", "t"),
        thinking,
        stored(3, "assistant", "{\"content\":\"hi\",\"toolCalls\":[]}", "t"),
        stored(4, "assistant", "{\"toolCalls\":[{\"id\":\"x\"}]}", "t"),
        stored(5, "tool", "not json", "t"),
        stored(6, "tool", "{\"other\":1}", "t"),
        stored(7, "critic", "odd", "t"),
    ];
    let m = build_chat_messages_for_tools(&history);
    assert_eq!(m.len(), 6);
    assert!(matches!(&m[0], ToolPromptMessage::System { content } if content == "be nice"));
    match &m[1] {
        ToolPromptMessage::Assistant { content, thinking, tool_calls } => {
            assert_eq!(content.as_deref(), Some("just text"));
            assert_eq!(thinking.as_deref(), Some("hmm"));
            assert!(tool_calls.is_empty());
        }
        other => panic!("unexpected {:?}", other),
    }
    assert!(matches!(&m[2], ToolPromptMessage::Assistant { content: Some(c), tool_calls, .. } if c == "hi" && tool_calls.is_empty()));
    assert!(matches!(&m[3], ToolPromptMessage::Assistant { content: Some(c), tool_calls, .. } if c.is_empty() && tool_calls.is_empty()));
    assert!(matches!(&m[4], ToolPromptMessage::Tool { tool_call_id, result } if tool_call_id.is_empty() && result.is_empty()));
    assert!(matches!(&m[5], ToolPromptMessage::User { content } if content == "odd"));
}

#[test]
fn written_turns_read_back() {
    let calls = vec![
        PendingToolCall { id: "call_7".to_string(), name: "fs/read".to_string(), arguments: "{\"path\":\"a \\\"b\\\"\"}".to_string() },
        PendingToolCall { id: "call_8".to_string(), name: "rhd_set_todo_list".to_string(), arguments: "{}".to_string() },
    ];
    let turn = assistant_tool_calls_message("Line one\nLine \"two\"", &calls);
    assert_eq!(
        turn,
        "{\"content\":\"Line one\\nLine \\\"two\\\"\",\"toolCalls\":[{\"id\":\"call_7\",\"name\":\"fs/read\",\"arguments\":\"{\\\"path\\\":\\\"a \\\\\\\"b\\\\\\\"\\\"}\"},{\"id\":\"call_8\",\"name\":\"rhd_set_todo_list\",\"arguments\":\"{}\"}]}"
    );
    let result = tool_result_message("call_7", "fs/read", "ok", false);
    assert_eq!(result, "{\"isError\":false,\"name\":\"fs/read\",\"result\":\"ok\",\"toolCallId\":\"call_7\"}");
    let history = vec![stored(1, "assistant", &turn, "t"), stored(2, "tool", &result, "t")];
    let m = build_chat_messages_for_tools(&history);
    match &m[0] {
        ToolPromptMessage::Assistant { content, tool_calls, .. } => {
            assert_eq!(content.as_deref(), Some("Line one\nLine \"two\""));
            assert_eq!(tool_calls, &calls);
        }
        other => panic!("unexpected {:?}", other),
    }
    assert!(matches!(&m[1], ToolPromptMessage::Tool { tool_call_id, result } if tool_call_id == "call_7" && result == "ok"));
}

#[test]
fn error_results_are_flagged() {
    assert_eq!(
        tool_result_message("call_1", "x", "boom", true),
        "{\"isError\":true,\"name\":\"x\",\"result\":\"boom\",\"toolCallId\":\"call_1\"}"
    );
}
