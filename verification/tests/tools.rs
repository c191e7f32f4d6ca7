use rhd_chat::tools::{
    builtin_tool_names,
    extract_mcp_id_from_tool_name, iteration_limit_reached, max_iterations_message,
    prefixed_tool_name, route_tool_call, split_tool_name, tool_call_id, unknown_tool_message, ToolCallIds,
    ToolRoute, RHD_SET_ROLE_TOOL_NAME, RHD_SET_TODO_LIST_TOOL_NAME,
};

#[test]
fn tools_test_extract_mcp_id_from_tool_name_with_prefix() {
    assert_eq!(extract_mcp_id_from_tool_name("mock1/echo"), "mock1");
    assert_eq!(extract_mcp_id_from_tool_name("server/tool"), "server");
}

#[test]
fn tools_test_extract_mcp_id_from_tool_name_without_prefix() {
    assert_eq!(extract_mcp_id_from_tool_name("echo"), "echo");
    assert_eq!(extract_mcp_id_from_tool_name("rhd_set_flag"), "rhd_set_flag");
}

#[test]
fn tools_test_split_tool_name_with_prefix() {
    let (mcp_id, bare_name) = split_tool_name("mock1/echo");
    assert_eq!(mcp_id, "mock1");
    assert_eq!(bare_name, "echo");
}

#[test]
fn tools_test_split_tool_name_without_prefix() {
    let (mcp_id, bare_name) = split_tool_name("echo");
    assert_eq!(mcp_id, "");
    assert_eq!(bare_name, "echo");
}

#[test]
fn tests_test_extract_mcp_id_from_tool_name_with_prefix() {
    assert_eq!(extract_mcp_id_from_tool_name("mock1/echo"), "mock1");
    assert_eq!(extract_mcp_id_from_tool_name("server/tool"), "server");
}

#[test]
fn tests_test_extract_mcp_id_from_tool_name_without_prefix() {
    assert_eq!(extract_mcp_id_from_tool_name("echo"), "echo");
    assert_eq!(extract_mcp_id_from_tool_name("rhd_set_flag"), "rhd_set_flag");
}

#[test]
fn tests_test_split_tool_name_with_prefix() {
    let (mcp_id, bare_name) = split_tool_name("mock1/echo");
    assert_eq!(mcp_id, "mock1");
    assert_eq!(bare_name, "echo");
}

#[test]
fn tests_test_split_tool_name_without_prefix() {
    let (mcp_id, bare_name) = split_tool_name("echo");
    assert_eq!(mcp_id, "");
    assert_eq!(bare_name, "echo");
}

#[test]
fn tool_parsing_test_extract_mcp_id_from_tool_name_with_prefix() {
    assert_eq!(extract_mcp_id_from_tool_name("mock1/echo"), "mock1");
    assert_eq!(extract_mcp_id_from_tool_name("server/tool"), "server");
}

#[test]
fn tool_parsing_test_extract_mcp_id_from_tool_name_without_prefix() {
    assert_eq!(extract_mcp_id_from_tool_name("echo"), "echo");
    assert_eq!(extract_mcp_id_from_tool_name("rhd_set_flag"), "rhd_set_flag");
}

#[test]
fn tool_parsing_test_split_tool_name_with_prefix() {
    let (mcp_id, bare_name) = split_tool_name("mock1/echo");
    assert_eq!(mcp_id, "mock1");
    assert_eq!(bare_name, "echo");
}

#[test]
fn tool_parsing_test_split_tool_name_without_prefix() {
    let (mcp_id, bare_name) = split_tool_name("echo");
    assert_eq!(mcp_id, "");
    assert_eq!(bare_name, "echo");
}

#[test]
fn tools_test_tool_loop_iteration_tracking() {
    let mut iterations = 0u32;
    let max_iterations = 3u32;

    while !iteration_limit_reached(iterations, max_iterations) {
        iterations += 1;
    }

    assert_eq!(iterations, 3);
    assert!(iterations >= max_iterations);
}

#[test]
fn tools_test_tool_loop_max_iterations_check() {
    let iterations = 5u32;
    let max_iterations = 5u32;

    let should_stop = iteration_limit_reached(iterations, max_iterations);

    assert!(should_stop, "Should stop when iterations reach max");
}

#[test]
fn tests_test_tool_loop_iteration_tracking() {
    let mut iterations = 0u32;
    let max_iterations = 3u32;

    while !iteration_limit_reached(iterations, max_iterations) {
        iterations += 1;
    }

    assert_eq!(iterations, 3);
    assert!(iterations >= max_iterations);
}

#[test]
fn tests_test_tool_loop_max_iterations_check() {
    let iterations = 5u32;
    let max_iterations = 5u32;

    let should_stop = iteration_limit_reached(iterations, max_iterations);

    assert!(should_stop, "Should stop when iterations reach max");
}

#[test]
fn message_tests_test_tool_loop_iteration_tracking() {
    let mut iterations = 0u32;
    let max_iterations = 3u32;

    while !iteration_limit_reached(iterations, max_iterations) {
        iterations += 1;
    }

    assert_eq!(iterations, 3);
    assert!(iterations >= max_iterations);
}

#[test]
fn message_tests_test_tool_loop_max_iterations_check() {
    let iterations = 5u32;
    let max_iterations = 5u32;

    let should_stop = iteration_limit_reached(iterations, max_iterations);

    assert!(should_stop, "Should stop when iterations reach max");
}

#[test]
fn split_tool_name_splits_at_first_slash() {
    let (mcp_id, bare_name) = split_tool_name("a/b/c");
    assert_eq!(mcp_id, "a");
    assert_eq!(bare_name, "b/c");
    assert_eq!(extract_mcp_id_from_tool_name("a/b/c"), "a");
}

#[test]
fn split_tool_name_empty_parts() {
    let (mcp_id, bare_name) = split_tool_name("/echo");
    assert_eq!(mcp_id, "");
    assert_eq!(bare_name, "echo");
    let (mcp_id, bare_name) = split_tool_name("");
    assert_eq!(mcp_id, "");
    assert_eq!(bare_name, "");
}

#[test]
fn prefixed_name_round_trips() {
    let full = prefixed_tool_name("mock1", "echo");
    assert_eq!(full, "mock1/echo");
    let (mcp_id, bare_name) = split_tool_name(&full);
    assert_eq!(mcp_id, "mock1");
    assert_eq!(bare_name, "echo");
    let full = prefixed_tool_name("srv", "a/b");
    let (mcp_id, bare_name) = split_tool_name(&full);
    assert_eq!(mcp_id, "srv");
    assert_eq!(bare_name, "a/b");
}

#[test]
fn builtin_tool_name_constants() {
    assert_eq!(RHD_SET_ROLE_TOOL_NAME, "rhd_set_role");
    assert_eq!(RHD_SET_TODO_LIST_TOOL_NAME, "rhd_set_todo_list");
}

#[test]
fn unknown_tool_message_names_the_tool() {
    assert_eq!(unknown_tool_message("mock1/echo"), "Error: unknown tool 'mock1/echo'");
}

#[test]
fn tool_call_ids_are_numbered() {
    assert_eq!(tool_call_id(0), "call_0");
    assert_eq!(tool_call_id(42), "call_42");
}

#[test]
fn iteration_limit_boundaries() {
    assert!(!iteration_limit_reached(0, 3));
    assert!(!iteration_limit_reached(2, 3));
    assert!(iteration_limit_reached(3, 3));
    assert!(iteration_limit_reached(7, 3));
    assert!(iteration_limit_reached(0, 0));
}

#[test]
fn max_iterations_message_text() {
    assert_eq!(max_iterations_message(10), "max tool iterations (10) exceeded");
}

#[test]
fn route_builtin_tools_first() {
    let ids = vec!["rhd_set_todo_list".to_string(), "mock1".to_string()];
    assert_eq!(route_tool_call("rhd_set_todo_list", &ids), ToolRoute::SetTodoList);
    assert_eq!(route_tool_call("rhd_set_role", &ids), ToolRoute::SetRole);
}

#[test]
fn route_to_first_matching_client() {
    let ids = vec!["a".to_string(), "mock1".to_string(), "mock1".to_string()];
    assert_eq!(route_tool_call("mock1/echo", &ids), ToolRoute::Mcp { index: 1 });
    assert_eq!(route_tool_call("a/x", &ids), ToolRoute::Mcp { index: 0 });
}

#[test]
fn route_unknown_tool() {
    let ids = vec!["mock1".to_string()];
    assert_eq!(route_tool_call("unknown/echo", &ids), ToolRoute::Unknown);
    assert_eq!(route_tool_call("echo", &ids), ToolRoute::Unknown);
    assert_eq!(route_tool_call("mock1/echo", &Vec::new()), ToolRoute::Unknown);
}

#[test]
fn builtin_tools_offered() {
    assert_eq!(builtin_tool_names(false), vec!["rhd_set_todo_list".to_string()]);
    assert_eq!(
        builtin_tool_names(true),
        vec!["rhd_set_todo_list".to_string(), "rhd_set_role".to_string()]
    );
}

#[test]
fn tool_call_ids_number_on_across_batches() {
    let mut ids = ToolCallIds::new();
    assert_eq!(ids.assign(2), vec!["call_0".to_string(), "call_1".to_string()]);
    assert_eq!(ids.assign(0), Vec::<String>::new());
    assert_eq!(ids.assign(3), vec!["call_2".to_string(), "call_3".to_string(), "call_4".to_string()]);
}

#[test]
fn tool_call_ids_never_repeat() {
    let mut ids = ToolCallIds::new();
    let mut seen: Vec<String> = Vec::new();
    for batch in [1usize, 4, 2, 7] {
        for id in ids.assign(batch) {
            assert!(!seen.contains(&id));
            seen.push(id);
        }
    }
    assert_eq!(seen.len(), 14);
}
