use rhd_chat::state::{ExecutionPhase, QueuedMessage};
use rhd_chat::stream_fsm::{StreamLifecycleAction, StreamLifecycleFsm, StreamLifecycleInput};
use std::sync::Arc;
use tokio::sync::Notify;
use tokio_util::sync::CancellationToken;

fn create_test_fsm() -> StreamLifecycleFsm {
    StreamLifecycleFsm::new(1)
}

#[test]
fn test_initial_state() {
    let fsm = create_test_fsm();
    assert!(fsm.is_idle());
}

#[test]
fn test_register_from_idle() {
    let mut fsm = create_test_fsm();
    let cancel_token = CancellationToken::new();
    let pause_notify = Arc::new(Notify::new());

    let actions = fsm.handle(StreamLifecycleInput::Register { cancel_token, pause_notify });

    assert_eq!(actions.len(), 1);
    match &actions[0] {
        StreamLifecycleAction::Registered => {}
        _ => panic!("Expected Registered action"),
    }

    assert!(fsm.is_running());
}

#[test]
fn test_pause_from_running() {
    let mut fsm = create_test_fsm();
    let cancel_token = CancellationToken::new();
    let pause_notify = Arc::new(Notify::new());

    fsm.handle(StreamLifecycleInput::Register { cancel_token, pause_notify });

    let actions = fsm.handle(StreamLifecycleInput::Pause);

    assert_eq!(actions.len(), 1);
    match &actions[0] {
        StreamLifecycleAction::Paused => {}
        _ => panic!("Expected Paused action"),
    }

    assert!(fsm.is_paused());
}

#[test]
fn test_resume_from_paused() {
    let mut fsm = create_test_fsm();
    let cancel_token = CancellationToken::new();
    let pause_notify = Arc::new(Notify::new());

    fsm.handle(StreamLifecycleInput::Register { cancel_token, pause_notify });
    fsm.handle(StreamLifecycleInput::Pause);

    let actions = fsm.handle(StreamLifecycleInput::Resume);

    assert_eq!(actions.len(), 1);
    match &actions[0] {
        StreamLifecycleAction::Resumed => {}
        _ => panic!("Expected Resumed action"),
    }

    assert!(fsm.is_running());
}

#[test]
fn test_abort_from_running() {
    let mut fsm = create_test_fsm();
    let cancel_token = CancellationToken::new();
    let pause_notify = Arc::new(Notify::new());

    fsm.handle(StreamLifecycleInput::Register { cancel_token, pause_notify });

    let actions = fsm.handle(StreamLifecycleInput::Abort { aborted_tool_ids: vec!["call_1".to_string()] });

    assert_eq!(actions.len(), 1);
    match &actions[0] {
        StreamLifecycleAction::Aborted => {}
        _ => panic!("Expected Aborted action"),
    }

    assert!(fsm.is_aborted());
}

#[test]
fn test_abort_from_paused() {
    let mut fsm = create_test_fsm();
    let cancel_token = CancellationToken::new();
    let pause_notify = Arc::new(Notify::new());

    fsm.handle(StreamLifecycleInput::Register { cancel_token, pause_notify });
    fsm.handle(StreamLifecycleInput::Pause);

    let actions = fsm.handle(StreamLifecycleInput::Abort { aborted_tool_ids: vec!["call_1".to_string()] });

    assert_eq!(actions.len(), 1);
    match &actions[0] {
        StreamLifecycleAction::Aborted => {}
        _ => panic!("Expected Aborted action"),
    }

    assert!(fsm.is_aborted());
}

#[test]
fn test_unregister_from_running() {
    let mut fsm = create_test_fsm();
    let cancel_token = CancellationToken::new();
    let pause_notify = Arc::new(Notify::new());

    fsm.handle(StreamLifecycleInput::Register { cancel_token, pause_notify });

    let actions = fsm.handle(StreamLifecycleInput::Unregister);

    assert_eq!(actions.len(), 1);
    match &actions[0] {
        StreamLifecycleAction::Unregistered => {}
        _ => panic!("Expected Unregistered action"),
    }

    assert!(fsm.is_idle());
}

#[test]
fn test_set_phase() {
    let mut fsm = create_test_fsm();
    let cancel_token = CancellationToken::new();
    let pause_notify = Arc::new(Notify::new());

    fsm.handle(StreamLifecycleInput::Register { cancel_token, pause_notify });

    let actions = fsm.handle(StreamLifecycleInput::SetPhase { phase: ExecutionPhase::ToolExecution });

    assert_eq!(actions.len(), 1);
    match &actions[0] {
        StreamLifecycleAction::PhaseChanged { phase } => {
            assert_eq!(*phase, ExecutionPhase::ToolExecution);
        }
        _ => panic!("Expected PhaseChanged action"),
    }

    assert_eq!(fsm.phase(), Some(&ExecutionPhase::ToolExecution));
}

#[test]
fn test_queue_message_while_paused() {
    let mut fsm = create_test_fsm();
    let cancel_token = CancellationToken::new();
    let pause_notify = Arc::new(Notify::new());

    fsm.handle(StreamLifecycleInput::Register { cancel_token, pause_notify });
    fsm.handle(StreamLifecycleInput::Pause);

    let message = QueuedMessage {
        content: "test message".to_string(),
        model: "gpt-4".to_string(),
        queued_at: chrono::Utc::now().timestamp_millis(),
    };

    let actions = fsm.handle(StreamLifecycleInput::QueueMessage { message });

    assert_eq!(actions.len(), 1);
    match &actions[0] {
        StreamLifecycleAction::MessageQueued => {}
        _ => panic!("Expected MessageQueued action"),
    }

    assert_eq!(fsm.message_queue().unwrap().len(), 1);
}

#[test]
fn test_invalid_transition_register_from_running() {
    let mut fsm = create_test_fsm();
    let cancel_token = CancellationToken::new();
    let pause_notify = Arc::new(Notify::new());

    fsm.handle(StreamLifecycleInput::Register {
        cancel_token: cancel_token.clone(),
        pause_notify: pause_notify.clone(),
    });

    let actions = fsm.handle(StreamLifecycleInput::Register { cancel_token, pause_notify });

    assert_eq!(actions.len(), 1);
    match &actions[0] {
        StreamLifecycleAction::Error { message } => {
            assert!(message.contains("Invalid transition"));
        }
        _ => panic!("Expected Error action"),
    }
}

#[test]
fn invalid_transition_message_names_both_variants() {
    let mut fsm = create_test_fsm();
    let actions = fsm.handle(StreamLifecycleInput::Resume);
    match &actions[0] {
        StreamLifecycleAction::Error { message } => {
            assert_eq!(message, "Invalid transition: state=Discriminant(0), input=Discriminant(2)");
        }
        _ => panic!("Expected Error action"),
    }
    assert!(fsm.is_idle());
}

#[test]
fn pause_resume_keeps_phase_and_token() {
    let mut fsm = StreamLifecycleFsm::new(9);
    let token = CancellationToken::new();
    fsm.handle(StreamLifecycleInput::Register { cancel_token: token.clone(), pause_notify: Arc::new(Notify::new()) });
    fsm.handle(StreamLifecycleInput::SetPhase { phase: ExecutionPhase::ToolExecution });
    fsm.handle(StreamLifecycleInput::Pause);
    assert_eq!(fsm.phase(), Some(&ExecutionPhase::ToolExecution));
    fsm.handle(StreamLifecycleInput::Resume);
    assert!(fsm.is_running());
    assert_eq!(fsm.phase(), Some(&ExecutionPhase::ToolExecution));
    assert!(fsm.cancel_token().unwrap() == &token);
    assert_eq!(fsm.chat_id(), 9);
}

#[test]
fn abort_from_paused_keeps_queue_and_ids() {
    let mut fsm = create_test_fsm();
    fsm.handle(StreamLifecycleInput::Register { cancel_token: CancellationToken::new(), pause_notify: Arc::new(Notify::new()) });
    fsm.handle(StreamLifecycleInput::Pause);
    for text in ["a", "b"] {
        fsm.handle(StreamLifecycleInput::QueueMessage {
            message: QueuedMessage { content: text.to_string(), model: "m".to_string(), queued_at: 0 },
        });
    }
    fsm.handle(StreamLifecycleInput::Abort { aborted_tool_ids: vec!["call_7".to_string()] });
    let q = fsm.message_queue().unwrap();
    assert_eq!(q.len(), 2);
    assert_eq!(q.messages[0].content, "a");
    assert_eq!(q.messages[1].content, "b");
    assert_eq!(fsm.aborted_tool_ids().unwrap(), &vec!["call_7".to_string()]);
    assert!(fsm.pause_notify().is_none());
    let actions = fsm.handle(StreamLifecycleInput::QueueMessage {
        message: QueuedMessage { content: "c".to_string(), model: "m".to_string(), queued_at: 0 },
    });
    assert!(matches!(actions[0], StreamLifecycleAction::MessageQueued));
    assert_eq!(fsm.message_queue().unwrap().len(), 3);
    fsm.handle(StreamLifecycleInput::Unregister);
    assert!(fsm.is_idle());
    assert!(fsm.cancel_token().is_none());
}

#[test]
fn queueing_while_running_is_refused() {
    let mut fsm = create_test_fsm();
    fsm.handle(StreamLifecycleInput::Register { cancel_token: CancellationToken::new(), pause_notify: Arc::new(Notify::new()) });
    let actions = fsm.handle(StreamLifecycleInput::QueueMessage {
        message: QueuedMessage { content: "x".to_string(), model: "m".to_string(), queued_at: 0 },
    });
    match &actions[0] {
        StreamLifecycleAction::Error { message } => {
            assert_eq!(message, "Invalid transition: state=Discriminant(1), input=Discriminant(5)");
        }
        _ => panic!("Expected Error action"),
    }
    assert!(fsm.is_running());
    assert!(fsm.message_queue().is_none());
}

#[test]
fn descriptions() {
    let mut fsm = create_test_fsm();
    assert_eq!(fsm.state().describe(), "Idle");
    let input = StreamLifecycleInput::Register {
        cancel_token: CancellationToken::new(),
        pause_notify: Arc::new(Notify::new()),
    };
    assert_eq!(input.describe(), "Register");
    let actions = fsm.handle(input);
    assert_eq!(actions[0].describe(), "Registered");
    assert_eq!(fsm.state().describe(), "Running { phase: AiCall }");
    let set = StreamLifecycleInput::SetPhase { phase: ExecutionPhase::ToolExecution };
    assert_eq!(set.describe(), "SetPhase { phase: ToolExecution }");
    let actions = fsm.handle(set);
    assert_eq!(actions[0].describe(), "PhaseChanged { phase: ToolExecution }");
    fsm.handle(StreamLifecycleInput::Pause);
    let queued = StreamLifecycleInput::QueueMessage {
        message: QueuedMessage { content: "héllo".to_string(), model: "gpt-4".to_string(), queued_at: 0 },
    };
    assert_eq!(queued.describe(), "QueueMessage { content_length: 6 }");
    fsm.handle(queued);
    assert_eq!(fsm.state().describe(), "Paused { phase: ToolExecution, queue_size: 1 }");
    let abort = StreamLifecycleInput::Abort { aborted_tool_ids: vec!["call_1".to_string(), "call_2".to_string()] };
    assert_eq!(abort.describe(), "Abort { aborted_tools: 2 }");
    fsm.handle(abort);
    assert_eq!(fsm.state().describe(), "Aborted { aborted_tools: 2, queue_size: 1 }");
    let actions = fsm.handle(StreamLifecycleInput::Pause);
    assert!(actions[0].describe().starts_with("Error { message: Invalid transition"));
    assert_eq!(StreamLifecycleInput::Unregister.describe(), "Unregister");
    assert_eq!(StreamLifecycleAction::MessageQueued.describe(), "MessageQueued");
}
