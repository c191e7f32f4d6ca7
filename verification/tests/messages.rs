use rhd_chat::event::{build_chat_messages, ChatEvent, StoredMessage};
use rhd_chat::todo::{TodoItem, TodoStatus};
use rhd_chat::tools::builtin_tool_names;
use serde_json::Value;
use tokio_util::sync::CancellationToken;

fn stored(id: i64, role: &str, content: &str, created_at: &str) -> StoredMessage {
    StoredMessage {
        id,
        chat_id: 1,
        role: role.to_string(),
        content: content.to_string(),
        created_at: created_at.to_string(),
        model: None,
        thinking_content: None,
    }
}

#[test]
fn tools_test_build_chat_messages() {
    let messages = vec![
        stored(1, "system", "You are helpful", "2024-01-01T00:00:00Z"),
        stored(2, "user", "Hello", "2024-01-01T00:00:01Z"),
        stored(3, "assistant", "Hi there", "2024-01-01T00:00:02Z"),
    ];

    let chat_messages = build_chat_messages(&messages);
    assert_eq!(chat_messages.len(), 3);
}

#[test]
fn tools_test_tool_loop_cancellation_check() {
    let token = CancellationToken::new();
    assert!(!token.is_cancelled(), "Token should not be cancelled initially");

    token.cancel();
    assert!(token.is_cancelled(), "Token should be cancelled after cancel()");
}

#[test]
fn tests_test_build_chat_messages() {
    let messages = vec![
        stored(1, "system", "You are helpful", "2024-01-01T00:00:00Z"),
        stored(2, "user", "Hello", "2024-01-01T00:00:01Z"),
        stored(3, "assistant", "Hi there", "2024-01-01T00:00:02Z"),
    ];

    let chat_messages = build_chat_messages(&messages);
    assert_eq!(chat_messages.len(), 3);
}

#[test]
fn tests_test_tool_loop_cancellation_check() {
    let token = CancellationToken::new();
    assert!(!token.is_cancelled(), "Token should not be cancelled initially");

    token.cancel();
    assert!(token.is_cancelled(), "Token should be cancelled after cancel()");
}

#[test]
fn message_tests_test_build_chat_messages() {
    let messages = vec![
        stored(1, "system", "You are helpful", "2024-01-01T00:00:00Z"),
        stored(2, "user", "Hello", "2024-01-01T00:00:01Z"),
        stored(3, "assistant", "Hi there", "2024-01-01T00:00:02Z"),
    ];

    let chat_messages = build_chat_messages(&messages);
    assert_eq!(chat_messages.len(), 3);
}

#[test]
fn message_tests_test_tool_loop_cancellation_check() {
    let token = CancellationToken::new();
    assert!(!token.is_cancelled(), "Token should not be cancelled initially");

    token.cancel();
    assert!(token.is_cancelled(), "Token should be cancelled after cancel()");
}

#[test]
fn tools_test_collect_builtin_tools_no_roles() {
    let attached_projects_have_roles = false;
    let tools = builtin_tool_names(attached_projects_have_roles);
    assert_eq!(tools.len(), 1);
    assert_eq!(tools[0], "rhd_set_todo_list");
}

#[test]
fn tools_test_collect_builtin_tools_with_roles() {
    let project_a_roles = vec!["developer".to_string()];
    let tools = builtin_tool_names(!project_a_roles.is_empty());
    assert_eq!(tools.len(), 2);
    assert_eq!(tools[0], "rhd_set_todo_list");
    assert_eq!(tools[1], "rhd_set_role");
}

#[test]
fn tests_test_collect_builtin_tools_no_roles() {
    let attached_projects_have_roles = false;
    let tools = builtin_tool_names(attached_projects_have_roles);
    assert_eq!(tools.len(), 1);
    assert_eq!(tools[0], "rhd_set_todo_list");
}

#[test]
fn tests_test_collect_builtin_tools_with_roles() {
    let project_a_roles = vec!["developer".to_string()];
    let tools = builtin_tool_names(!project_a_roles.is_empty());
    assert_eq!(tools.len(), 2);
    assert_eq!(tools[0], "rhd_set_todo_list");
    assert_eq!(tools[1], "rhd_set_role");
}

#[test]
fn role_tests_test_collect_builtin_tools_no_roles() {
    let attached_projects_have_roles = false;
    let tools = builtin_tool_names(attached_projects_have_roles);
    assert_eq!(tools.len(), 1);
    assert_eq!(tools[0], "rhd_set_todo_list");
}

#[test]
fn role_tests_test_collect_builtin_tools_with_roles() {
    let project_a_roles = vec!["developer".to_string()];
    let tools = builtin_tool_names(!project_a_roles.is_empty());
    assert_eq!(tools.len(), 2);
    assert_eq!(tools[0], "rhd_set_todo_list");
    assert_eq!(tools[1], "rhd_set_role");
}

#[test]
fn test_ws_event_conversion() {
    let chat_event = ChatEvent::TodoListUpdated {
        chat_id: 42,
        items: vec![TodoItem { content: "Test task".to_string(), status: TodoStatus::Completed }],
    };

    let event_name = chat_event.ws_event_name();
    let data = match chat_event {
        ChatEvent::TodoListUpdated { chat_id, items } => {
            let dto_items: Vec<Value> = items
                .into_iter()
                .map(|item| {
                    let mut dto = serde_json::Map::new();
                    dto.insert("content".to_string(), Value::String(item.content));
                    dto.insert("status".to_string(), Value::String(format!("{:?}", item.status)));
                    Value::Object(dto)
                })
                .collect();
            let mut payload = serde_json::Map::new();
            payload.insert("chatId".to_string(), Value::from(chat_id));
            payload.insert("items".to_string(), Value::Array(dto_items));
            Value::Object(payload)
        }
        _ => panic!("Wrong event type"),
    };

    assert_eq!(event_name, "todoListUpdated");
    assert_eq!(data["chatId"], 42);
    assert_eq!(data["items"].as_array().unwrap().len(), 1);
}
