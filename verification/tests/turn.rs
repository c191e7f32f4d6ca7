use rhd_chat::builtin::ToolResult;
use rhd_chat::error::ChatError;
use rhd_chat::event::ChatEvent;
use rhd_chat::turn::{
    finish_answer, loop_gate, route_user_message, stream_failure_report, tool_call_completed,
    tool_call_started, tool_loop_aborted_event, LoopGate, SendRoute, StreamAccumulator,
    StreamFailure, ToolLoopResult, after_tool_loop, LoopEnd, CHAT_TOOL_ROUNDS, tool_loop_step,
    LoopAction, LoopEvent, LoopPhase, ToolLoop,
};

#[test]
fn gate_order() {
    assert_eq!(loop_gate(true, 0, 10), LoopGate::Aborted);
    assert_eq!(loop_gate(true, 10, 10), LoopGate::Aborted);
    assert_eq!(loop_gate(false, 10, 10), LoopGate::IterationsExceeded);
    assert_eq!(loop_gate(false, 9, 10), LoopGate::Proceed);
}

#[test]
fn accumulator_collects_chunks() {
    let mut acc = StreamAccumulator::new();
    let e = acc.on_chunk(7, Some("Hel".to_string()), None);
    assert_eq!(e.len(), 1);
    assert!(matches!(&e[0], ChatEvent::StreamChunk { chat_id: 7, content } if content == "Hel"));
    let e = acc.on_chunk(7, Some(String::new()), Some("think".to_string()));
    assert_eq!(e.len(), 1);
    assert!(matches!(&e[0], ChatEvent::ThinkingChunk { chat_id: 7, content } if content == "think"));
    let e = acc.on_chunk(7, Some("lo".to_string()), Some(" more".to_string()));
    assert_eq!(e.len(), 2);
    assert!(matches!(&e[0], ChatEvent::StreamChunk { .. }));
    assert!(matches!(&e[1], ChatEvent::ThinkingChunk { .. }));
    assert!(acc.on_chunk(7, None, None).is_empty());
    assert_eq!(acc.content, "Hello");
    assert_eq!(acc.thinking, "think more");
}

#[test]
fn finished_answers() {
    let mut acc = StreamAccumulator::new();
    acc.on_chunk(1, Some("Hi".to_string()), None);
    let a = finish_answer(acc, None);
    assert_eq!(a.content, "Hi");
    assert_eq!(a.thinking, None);
    assert_eq!(a.finish_reason, "stop");
    let mut acc = StreamAccumulator::new();
    acc.on_chunk(1, None, Some("hmm".to_string()));
    let a = finish_answer(acc, Some("length".to_string()));
    assert_eq!(a.content, "");
    assert_eq!(a.thinking, Some("hmm".to_string()));
    assert_eq!(a.finish_reason, "length");
}

#[test]
fn failures_report() {
    let (e, log) = stream_failure_report(3, &StreamFailure::Aborted);
    assert!(matches!(e, ChatEvent::StreamAborted { chat_id: 3 }));
    assert_eq!(log, "aborted");
    let (e, log) = stream_failure_report(3, &StreamFailure::Failed { message: "HTTP 500".to_string() });
    assert!(matches!(&e, ChatEvent::StreamError { chat_id: 3, error } if error == "HTTP 500"));
    assert_eq!(log, "HTTP 500");
    assert!(matches!(tool_loop_aborted_event(3), ChatEvent::StreamError { chat_id: 3, error } if error == "aborted"));
}

#[test]
fn tool_call_events() {
    match tool_call_started(5, "call_1", "mock1/echo", "{}") {
        ChatEvent::ToolCallStarted { chat_id, tool_call_id, tool_name, arguments, mcp_id } => {
            assert_eq!(chat_id, 5);
            assert_eq!(tool_call_id, "call_1");
            assert_eq!(tool_name, "mock1/echo");
            assert_eq!(arguments, "{}");
            assert_eq!(mcp_id, "mock1");
        }
        other => panic!("unexpected {:?}", other),
    }
    let r = ToolResult { content: "done".to_string(), is_error: None };
    match tool_call_completed(5, "call_1", &r) {
        ChatEvent::ToolCallCompleted { result, is_error, .. } => {
            assert_eq!(result, "done");
            assert!(!is_error);
        }
        other => panic!("unexpected {:?}", other),
    }
    let r = ToolResult { content: "bad".to_string(), is_error: Some(true) };
    assert!(matches!(tool_call_completed(5, "c", &r), ChatEvent::ToolCallCompleted { is_error: true, .. }));
}

#[test]
fn user_message_routes() {
    assert_eq!(route_user_message(true, "unknown", false).unwrap(), SendRoute::WakePausedStream);
    assert_eq!(route_user_message(false, "gpt-4", true).unwrap(), SendRoute::StartTurn);
    match route_user_message(false, "gpt-9", false) {
        Err(ChatError::ModelNotFound(m)) => assert_eq!(m, "gpt-9"),
        other => panic!("unexpected {:?}", other),
    }
}

#[test]
fn loop_results() {
    assert_eq!(ToolLoopResult::Completed { message_id: 4 }, ToolLoopResult::Completed { message_id: 4 });
    assert_ne!(ToolLoopResult::Paused, ToolLoopResult::Completed { message_id: 4 });
}

#[test]
fn after_loop_outcomes() {
    assert_eq!(CHAT_TOOL_ROUNDS, 20);
    assert_eq!(after_tool_loop(LoopEnd::Completed { message_id: 9 }, false), (true, Some(9)));
    assert_eq!(after_tool_loop(LoopEnd::Paused, false), (false, Some(0)));
    assert_eq!(after_tool_loop(LoopEnd::Aborted, true), (false, None));
    assert_eq!(after_tool_loop(LoopEnd::Failed, false), (true, None));
    assert_eq!(after_tool_loop(LoopEnd::Failed, true), (false, None));
}

#[test]
fn tool_loop_sequence() {
    let s = ToolLoop::new(2);
    let (s, a) = tool_loop_step(s, LoopEvent::RoundStart { cancelled: false });
    assert_eq!(a, LoopAction::AskAi);
    let (s, a) = tool_loop_step(s, LoopEvent::Answer { tool_calls: 2 });
    assert_eq!(a, LoopAction::StartTools { count: 2 });
    assert_eq!(s.iterations(), 1);
    let (s, a) = tool_loop_step(s, LoopEvent::ToolTurn { cancelled: false });
    assert_eq!(a, LoopAction::RunTool);
    assert_eq!(s.phase(), LoopPhase::RunningTools { remaining: 1 });
    let (s, a) = tool_loop_step(s, LoopEvent::ToolTurn { cancelled: false });
    assert_eq!(a, LoopAction::RunTool);
    assert_eq!(s.phase(), LoopPhase::BeforeRound);
    let (s, a) = tool_loop_step(s, LoopEvent::Answer { tool_calls: 0 });
    assert_eq!(a, LoopAction::Reject);
    let (s, a) = tool_loop_step(s, LoopEvent::RoundStart { cancelled: false });
    assert_eq!(a, LoopAction::AskAi);
    let (s, a) = tool_loop_step(s, LoopEvent::Answer { tool_calls: 1 });
    assert_eq!(a, LoopAction::StartTools { count: 1 });
    let (s, _) = tool_loop_step(s, LoopEvent::ToolTurn { cancelled: false });
    let (s, a) = tool_loop_step(s, LoopEvent::RoundStart { cancelled: false });
    assert_eq!(a, LoopAction::ExceedIterations);
    assert_eq!(s.phase(), LoopPhase::Finished);
    assert_eq!(s.iterations(), 2);
    let (_, a) = tool_loop_step(s, LoopEvent::RoundStart { cancelled: false });
    assert_eq!(a, LoopAction::Reject);
}

#[test]
fn tool_loop_cancellation_and_finish() {
    let (s, a) = tool_loop_step(ToolLoop::new(5), LoopEvent::RoundStart { cancelled: true });
    assert_eq!(a, LoopAction::Abort);
    assert_eq!(s.phase(), LoopPhase::Finished);
    let (s, _) = tool_loop_step(ToolLoop::new(5), LoopEvent::RoundStart { cancelled: false });
    let (s, _) = tool_loop_step(s, LoopEvent::Answer { tool_calls: 3 });
    let (s, a) = tool_loop_step(s, LoopEvent::ToolTurn { cancelled: true });
    assert_eq!(a, LoopAction::Abort);
    assert_eq!(s.phase(), LoopPhase::Finished);
    let (s, _) = tool_loop_step(ToolLoop::new(5), LoopEvent::RoundStart { cancelled: false });
    let (s, a) = tool_loop_step(s, LoopEvent::Answer { tool_calls: 0 });
    assert_eq!(a, LoopAction::Finish);
    assert_eq!(s.iterations(), 0);
    let (_, a) = tool_loop_step(ToolLoop::new(0), LoopEvent::RoundStart { cancelled: false });
    assert_eq!(a, LoopAction::ExceedIterations);
}
