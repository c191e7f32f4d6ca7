use rhd_chat::error::ChatError;
use rhd_chat::event::ChatEvent;
use rhd_chat::manager::StreamRegistry;
use rhd_chat::state::ExecutionPhase;

#[test]
fn pause_chat_requires_running_stream() {
    let mut reg = StreamRegistry::new();
    assert!(!reg.pause_chat(1));
    let (_token, _notify) = reg.register_stream(1);
    assert!(reg.pause_chat(1));
    assert!(reg.get_stream_state(1).unwrap().is_paused);
    assert!(!reg.pause_chat(1));
}

#[test]
fn abort_chat_transitions_to_aborted_and_cancels() {
    let mut reg = StreamRegistry::new();
    let (token, _) = reg.register_stream(1);
    let aborted_tools = vec!["call_1".to_string(), "call_2".to_string()];
    assert!(reg.abort_chat(1, aborted_tools.clone()));
    let state = reg.get_stream_state(1).unwrap();
    assert!(state.is_aborted);
    assert_eq!(state.aborted_tool_ids, aborted_tools);
    assert!(token.is_cancelled());
    assert!(reg.is_aborted(1));
    assert!(!reg.abort_chat(2, vec![]));
}

#[test]
fn resume_chat_after_pause() {
    let mut reg = StreamRegistry::new();
    reg.register_stream(1);
    reg.set_execution_phase(1, ExecutionPhase::ToolExecution);
    reg.pause_chat(1);
    let info = reg.resume_chat(1).unwrap();
    assert_eq!(info.previous_phase, ExecutionPhase::ToolExecution);
    let state = reg.get_stream_state(1).unwrap();
    assert!(state.is_running);
    assert!(!state.is_paused);
    assert_eq!(state.phase, Some(ExecutionPhase::AiCall));
    assert!(reg.resume_chat(1).is_none());
}

#[test]
fn queue_message_only_while_paused_or_aborted() {
    let mut reg = StreamRegistry::new();
    assert!(matches!(reg.queue_message(1, "x".into(), "m".into(), 1_700_000_000_000), Err(ChatError::ChatNotFound)));
    reg.register_stream(1);
    match reg.queue_message(1, "Hello".into(), "gpt-4".into(), 1_700_000_000_000) {
        Err(ChatError::InvalidState(m)) => assert_eq!(m, "Chat is not paused or aborted"),
        other => panic!("unexpected {:?}", other),
    }
    reg.pause_chat(1);
    match reg.queue_message(1, "Hello".into(), "gpt-4".into(), 1_700_000_000_000) {
        Ok(ChatEvent::MessageQueued { chat_id, content, model }) => {
            assert_eq!(chat_id, 1);
            assert_eq!(content, "Hello");
            assert_eq!(model, "gpt-4");
        }
        other => panic!("unexpected {:?}", other),
    }
    let state = reg.get_stream_state(1).unwrap();
    assert_eq!(state.queued_messages.len(), 1);
    assert_eq!(state.queued_messages[0].content, "Hello");
    assert_eq!(state.queued_messages[0].queued_at, 1_700_000_000_000);
}

#[test]
fn queued_messages_are_drained_in_order() {
    let mut reg = StreamRegistry::new();
    reg.register_stream(1);
    reg.pause_chat(1);
    reg.queue_message(1, "First".into(), "gpt-4".into(), 1_700_000_000_000).unwrap();
    reg.queue_message(1, "Second".into(), "gpt-4".into(), 1_700_000_000_000).unwrap();
    let messages = reg.process_queued_messages(1).unwrap();
    assert_eq!(messages, vec![("First".to_string(), "gpt-4".to_string()), ("Second".to_string(), "gpt-4".to_string())]);
    assert_eq!(reg.get_stream_state(1).unwrap().queued_messages.len(), 0);
    assert!(matches!(reg.process_queued_messages(2), Err(ChatError::ChatNotFound)));
}

#[test]
fn resume_preserves_message_queue() {
    let mut reg = StreamRegistry::new();
    reg.register_stream(1);
    reg.pause_chat(1);
    reg.queue_message(1, "Hello".into(), "gpt-4".into(), 1_700_000_000_000).unwrap();
    let info = reg.resume_chat(1).unwrap();
    assert_eq!(info.message_queue.len(), 1);
    assert_eq!(info.message_queue.messages[0].content, "Hello");
}

#[test]
fn resume_after_abort_keeps_token_and_queue() {
    let mut reg = StreamRegistry::new();
    let (token, _) = reg.register_stream(3);
    reg.abort_chat(3, vec![]);
    reg.queue_message(3, "later".into(), "m".into(), 1_700_000_000_000).unwrap();
    let info = reg.resume_chat(3).unwrap();
    assert_eq!(info.previous_phase, ExecutionPhase::AiCall);
    assert_eq!(info.message_queue.messages[0].content, "later");
    assert!(reg.get_stream_state(3).unwrap().is_running);
    assert!(token.is_cancelled());
}

#[test]
fn register_replaces_and_cancels_old_stream() {
    let mut reg = StreamRegistry::new();
    let (first, _) = reg.register_stream(1);
    let (second, _) = reg.register_stream(1);
    assert!(first.is_cancelled());
    assert!(!second.is_cancelled());
    reg.unregister_stream(1);
    assert!(reg.get_stream_state(1).is_none());
}

#[test]
fn paused_notify_and_cancel_all() {
    let mut reg = StreamRegistry::new();
    let (t1, _) = reg.register_stream(1);
    let (t2, _) = reg.register_stream(2);
    assert!(reg.get_paused_notify(1).is_none());
    reg.pause_chat(1);
    assert!(reg.get_paused_notify(1).is_some());
    reg.cancel_all();
    assert!(t1.is_cancelled() && t2.is_cancelled());
    assert!(reg.get_stream_state(1).is_none());
    assert!(reg.get_stream_state(2).is_none());
}

#[test]
fn resume_wakes_the_paused_stream() {
    let mut reg = StreamRegistry::new();
    let (_token, notify) = reg.register_stream(1);
    reg.pause_chat(1);
    reg.resume_chat(1).unwrap();
    let mut woken = Box::pin(notify.notified());
    assert!(woken.as_mut().enable());
}

#[test]
fn resume_after_abort_wakes_nothing() {
    let mut reg = StreamRegistry::new();
    let (_token, notify) = reg.register_stream(1);
    reg.abort_chat(1, vec![]);
    reg.resume_chat(1).unwrap();
    let mut woken = Box::pin(notify.notified());
    assert!(!woken.as_mut().enable());
}

#[test]
fn pause_and_queue_cancel_nothing() {
    let mut reg = StreamRegistry::new();
    let (token, _) = reg.register_stream(1);
    reg.pause_chat(1);
    reg.queue_message(1, "x".into(), "m".into(), 5).unwrap();
    reg.process_queued_messages(1).unwrap();
    assert!(!token.is_cancelled());
}
