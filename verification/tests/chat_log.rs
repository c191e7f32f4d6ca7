use rhd_chat::chat_log::{
    assistant_response_block, error_block, format_messages_for_log, log_dir_name, raw_block,
    sanitize_title, stream_chunk_block, stream_error_block, stream_finished_block,
    stream_start_block, tool_call_block, tool_result_block, tool_result_raw_block, LoggedMessage,
    TokenUsage,
};

#[test]
fn start_block_with_tools() {
    let tools = vec!["mock1/echo".to_string(), "rhd_set_role".to_string()];
    let b = stream_start_block(7, "My chat", "gpt-4", &tools, "[user] hi");
    assert_eq!(
        b,
        "===== Chat \"My chat\" (id=7): stream started =====\nmodel: gpt-4\navailable tools: mock1/echo, rhd_set_role\n\n----- messages sent to API -----\n[user] hi\n\n"
    );
}

#[test]
fn start_block_without_tools() {
    let b = stream_start_block(-1, "t", "m", &[], "x\n");
    assert_eq!(b, "===== Chat \"t\" (id=-1): stream started =====\nmodel: m\n\n----- messages sent to API -----\nx\n\n");
}

#[test]
fn assistant_block_full() {
    let usage = TokenUsage { prompt_tokens: 10, completion_tokens: 5, total_tokens: 15 };
    let b = assistant_response_block(Some("thinking"), "answer", "stop", Some(&usage));
    assert_eq!(
        b,
        "===== Assistant response =====\n----- reasoning -----\nthinking\n\n----- message -----\nanswer\n\nfinish_reason: stop\ntokens: prompt=10, completion=5, total=15\n\n"
    );
}

#[test]
fn assistant_block_minimal() {
    let b = assistant_response_block(Some(""), "answer\n", "tool_calls", None);
    assert_eq!(b, "===== Assistant response =====\n----- message -----\nanswer\n\nfinish_reason: tool_calls\n\n");
}

#[test]
fn tool_blocks() {
    assert_eq!(tool_call_block("mock1/echo", "call_1", "{}"), "===== Tool call: mock1/echo (id=call_1) =====\n{}\n");
    assert_eq!(tool_result_block("e", "c", "ok"), "===== Tool result: e (id=c) =====\nok\n");
    assert_eq!(tool_result_raw_block("e", "c", "{\"a\":1}"), "===== TOOL RESULT RAW: e (id=c) =====\n{\"a\":1}\n");
}

#[test]
fn closing_blocks() {
    assert_eq!(stream_finished_block("stop", 1234), "===== Stream finished =====\nfinish_reason: stop\ntotal duration: 1234ms\n");
    assert_eq!(stream_error_block("boom"), "===== Stream error =====\nerror: boom\n");
    assert_eq!(raw_block("REQUEST", "{}"), "===== REQUEST =====\n{}\n");
    assert_eq!(stream_chunk_block(3, "{\"d\":1}"), "===== STREAM CHUNK 3 =====\n{\"d\":1}\n");
    assert_eq!(error_block(Some(500), "oops"), "===== ERROR =====\nstatus: 500\noops\n");
    assert_eq!(error_block(None, "oops"), "===== ERROR =====\nstatus: N/A\noops\n");
}

#[test]
fn titles_are_sanitized() {
    assert_eq!(sanitize_title("My chat: v2/test"), "My_chat__v2_test");
    assert_eq!(sanitize_title("ok-name_1"), "ok-name_1");
    assert_eq!(sanitize_title("日本語 ä"), "日本語_ä");
    assert_eq!(sanitize_title(""), "");
}

#[test]
fn dir_names() {
    assert_eq!(log_dir_name("chat", "2024-01-01_00-00-00", None), "chat-2024-01-01_00-00-00");
    assert_eq!(log_dir_name("chat", "ts", Some(2)), "chat-ts-2");
}

#[test]
fn messages_for_log() {
    let ms = vec![
        LoggedMessage { id: 1, role: "user".to_string(), content: "Hello".to_string() },
        LoggedMessage { id: 2, role: "tool".to_string(), content: "result".to_string() },
    ];
    assert_eq!(format_messages_for_log(&ms), "[user] Hello\n[tool 2] result\n");
    assert_eq!(format_messages_for_log(&[]), "");
}
