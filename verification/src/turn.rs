//! The decisions of one chat turn: what streamed chunks add up to, how a
//! stream ends, when the tool loop stops, and the events it reports.
use crate::builtin::ToolResult;
use crate::error::ChatError;
use crate::event::ChatEvent;
use crate::text::{append_str, to_owned_string};
use crate::tools::{extract_mcp_id_from_tool_name, mcp_id_of};
use vstd::prelude::*;

verus! {

/// How the tool loop of a chat ended.
#[derive(Debug, Clone, Copy, PartialEq, Eq, Structural)]
pub enum ToolLoopResult {
    /// The AI answered without tool calls; its answer is this message.
    Completed { message_id: i64 },
    /// The chat was paused.
    Paused,
}

/// What the tool loop does before it asks the AI again.
#[derive(Debug, Clone, Copy, PartialEq, Eq, Structural)]
pub enum LoopGate {
    /// The turn was cancelled: report `aborted` and stop.
    Aborted,
    /// The loop used up its tool rounds: fail with `max_iterations_message`.
    IterationsExceeded,
    /// Ask the AI.
    Proceed,
}

/// The check at the top of each round of the tool loop: a cancellation stops
/// it first, then the bound on tool rounds.
pub fn loop_gate(cancelled: bool, iterations: u32, max_iterations: u32) -> (g: LoopGate)
    ensures
        cancelled ==> g == LoopGate::Aborted,
        !cancelled && iterations >= max_iterations ==> g == LoopGate::IterationsExceeded,
        !cancelled && iterations < max_iterations ==> g == LoopGate::Proceed,
{
    if cancelled {
        LoopGate::Aborted
    } else if iterations >= max_iterations {
        LoopGate::IterationsExceeded
    } else {
        LoopGate::Proceed
    }
}

/// The text a chunk adds: nothing when it carries none or an empty one.
pub open spec fn chunk_text(c: Option<String>) -> Seq<char> {
    match c {
        Some(s) => s@,
        None => Seq::empty(),
    }
}

/// A chunk part that counts: present and not empty.
pub open spec fn counts(c: Option<String>) -> bool {
    c is Some && c->0@.len() > 0
}

/// The text and the reasoning that a streamed answer has accumulated.
#[derive(Debug)]
pub struct StreamAccumulator {
    pub content: String,
    pub thinking: String,
}

impl StreamAccumulator {
    /// An accumulator that holds nothing yet.
    pub fn new() -> (a: Self)
        ensures
            a.content@.len() == 0,
            a.thinking@.len() == 0,
    {
        StreamAccumulator { content: String::new(), thinking: String::new() }
    }

    /// Takes one streamed chunk: its content and reasoning are appended, and
    /// each part that is not empty is reported, content first.
    pub fn on_chunk(&mut self, chat_id: i64, content: Option<String>, reasoning: Option<String>) -> (events: Vec<ChatEvent>)
        ensures
            final(self).content@ == old(self).content@ + chunk_text(content),
            final(self).thinking@ == old(self).thinking@ + chunk_text(reasoning),
            events@.len() == (if counts(content) { 1int } else { 0int }) + (if counts(reasoning) { 1int } else { 0int }),
            counts(content) ==> (events@[0] matches ChatEvent::StreamChunk { chat_id: id, content: c } && id == chat_id
                && c@ == content->0@),
            counts(reasoning) ==> (events@[events@.len() - 1] matches ChatEvent::ThinkingChunk { chat_id: id, content: c }
                && id == chat_id && c@ == reasoning->0@),
    {
        let mut events: Vec<ChatEvent> = Vec::new();
        if let Some(c) = content {
            if !c.as_str().is_empty() {
                append_str(&mut self.content, c.as_str());
                events.push(ChatEvent::StreamChunk { chat_id, content: c });
            }
        }
        if let Some(r) = reasoning {
            if !r.as_str().is_empty() {
                append_str(&mut self.thinking, r.as_str());
                events.push(ChatEvent::ThinkingChunk { chat_id, content: r });
            }
        }
        events
    }
}

/// A finished answer, ready to be stored: its text, its reasoning (none when
/// empty), and why it finished (`stop` when the API did not say).
#[derive(Debug)]
pub struct FinishedAnswer {
    pub content: String,
    pub thinking: Option<String>,
    pub finish_reason: String,
}

/// The answer a stream that finished has produced.
pub fn finish_answer(acc: StreamAccumulator, finish_reason: Option<String>) -> (r: FinishedAnswer)
    ensures
        r.content@ == acc.content@,
        acc.thinking@.len() == 0 ==> r.thinking is None,
        acc.thinking@.len() > 0 ==> (r.thinking matches Some(t) && t@ == acc.thinking@),
        r.finish_reason@ == match finish_reason {
            Some(f) => f@,
            None => "stop"@,
        },
{
    let thinking = if acc.thinking.as_str().is_empty() {
        None
    } else {
        Some(acc.thinking)
    };
    let finish_reason = match finish_reason {
        Some(f) => f,
        None => to_owned_string("stop"),
    };
    FinishedAnswer { content: acc.content, thinking, finish_reason }
}

/// How a stream that did not finish ended.
#[derive(Debug)]
pub enum StreamFailure {
    /// The user aborted it.
    Aborted,
    /// The API failed with this message.
    Failed { message: String },
}

/// What a stream that did not finish reports and logs: an abort reports
/// `StreamAborted` and logs `aborted`; a failure reports its message in a
/// `StreamError` and logs it.
pub fn stream_failure_report(chat_id: i64, failure: &StreamFailure) -> (r: (ChatEvent, String))
    ensures
        match failure {
            StreamFailure::Aborted => (r.0 matches ChatEvent::StreamAborted { chat_id: id } && id == chat_id) && r.1@
                == "aborted"@,
            StreamFailure::Failed { message } => (r.0 matches ChatEvent::StreamError { chat_id: id, error } && id
                == chat_id && error@ == message@) && r.1@ == message@,
        },
{
    match failure {
        StreamFailure::Aborted => (ChatEvent::StreamAborted { chat_id }, to_owned_string("aborted")),
        StreamFailure::Failed { message } => (
            ChatEvent::StreamError { chat_id, error: message.clone() },
            message.clone(),
        ),
    }
}

/// What the tool loop reports when it is cancelled: a `StreamError` whose
/// error is `aborted`.
pub fn tool_loop_aborted_event(chat_id: i64) -> (e: ChatEvent)
    ensures
        e matches ChatEvent::StreamError { chat_id: id, error } && id == chat_id && error@ == "aborted"@,
{
    ChatEvent::StreamError { chat_id, error: to_owned_string("aborted") }
}

/// The event that announces a tool call before it runs, with the MCP id its
/// name carries.
pub fn tool_call_started(chat_id: i64, tool_call_id: &str, tool_name: &str, arguments: &str) -> (e: ChatEvent)
    ensures
        e matches ChatEvent::ToolCallStarted { chat_id: c, tool_call_id: i, tool_name: n, arguments: a, mcp_id: m }
            && c == chat_id && i@ == tool_call_id@ && n@ == tool_name@ && a@ == arguments@ && m@ == mcp_id_of(
            tool_name@,
        ),
{
    ChatEvent::ToolCallStarted {
        chat_id,
        tool_call_id: to_owned_string(tool_call_id),
        tool_name: to_owned_string(tool_name),
        arguments: to_owned_string(arguments),
        mcp_id: extract_mcp_id_from_tool_name(tool_name),
    }
}

/// The event that reports a tool call's result; a result that does not say
/// whether it is an error is not one.
pub fn tool_call_completed(chat_id: i64, tool_call_id: &str, result: &ToolResult) -> (e: ChatEvent)
    ensures
        e matches ChatEvent::ToolCallCompleted { chat_id: c, tool_call_id: i, result: r, is_error }
            && c == chat_id && i@ == tool_call_id@ && r@ == result.content@ && is_error == match result.is_error {
            Some(b) => b,
            None => false,
        },
{
    let is_error = match result.is_error {
        Some(b) => b,
        None => false,
    };
    ChatEvent::ToolCallCompleted {
        chat_id,
        tool_call_id: to_owned_string(tool_call_id),
        result: result.content.clone(),
        is_error,
    }
}

/// Where a new user message goes.
#[derive(Debug, PartialEq, Eq)]
pub enum SendRoute {
    /// The chat is paused: the message is stored and the paused stream is
    /// woken to take it.
    WakePausedStream,
    /// A new turn starts with the chosen model.
    StartTurn,
}

/// Decides where a user message goes: to the paused stream when the chat is
/// paused (whatever the model); otherwise a new turn, which needs a
/// configured model.
pub fn route_user_message(paused: bool, model: &str, model_known: bool) -> (r: Result<SendRoute, ChatError>)
    ensures
        paused ==> r == Ok::<SendRoute, ChatError>(SendRoute::WakePausedStream),
        !paused && model_known ==> r == Ok::<SendRoute, ChatError>(SendRoute::StartTurn),
        !paused && !model_known ==> (r matches Err(ChatError::ModelNotFound(m)) && m@ == model@),
{
    if paused {
        Ok(SendRoute::WakePausedStream)
    } else if model_known {
        Ok(SendRoute::StartTurn)
    } else {
        Err(ChatError::ModelNotFound(to_owned_string(model)))
    }
}

/// The number of tool rounds a chat turn may take.
pub const CHAT_TOOL_ROUNDS: u32 = 20;

/// How the tool loop of a turn ended.
#[derive(Debug, Clone, Copy, PartialEq, Eq, Structural)]
pub enum LoopEnd {
    /// The AI gave its final answer, stored as this message.
    Completed { message_id: i64 },
    /// The chat was paused in the middle of the loop.
    Paused,
    /// The user aborted the turn.
    Aborted,
    /// The loop failed otherwise.
    Failed,
}

/// What a turn does once its tool loop ended: whether the chat's stream is
/// unregistered, and the message id the turn reports (`0` for a paused turn)
/// or none when it fails. A paused or aborted stream stays registered so that
/// it can be resumed; a failed one stays only when it was aborted meanwhile.
pub fn after_tool_loop(end: LoopEnd, stream_aborted: bool) -> (r: (bool, Option<i64>))
    ensures
        r == match end {
            LoopEnd::Completed { message_id } => (true, Some(message_id)),
            LoopEnd::Paused => (false, Some(0i64)),
            LoopEnd::Aborted => (false, None),
            LoopEnd::Failed => (!stream_aborted, None),
        },
{
    match end {
        LoopEnd::Completed { message_id } => (true, Some(message_id)),
        LoopEnd::Paused => (false, Some(0)),
        LoopEnd::Aborted => (false, None),
        LoopEnd::Failed => (!stream_aborted, None),
    }
}

/// Where the tool loop of a chat turn stands.
#[derive(Debug, Clone, Copy, PartialEq, Eq, Structural)]
pub enum LoopPhase {
    /// About to start a round: check for cancellation and the round bound.
    BeforeRound,
    /// The AI was asked and its answer is awaited.
    AwaitingAnswer,
    /// The answer's tool calls are being run; `remaining` of them are left.
    RunningTools { remaining: usize },
    /// The loop ended.
    Finished,
}

/// What happens to the tool loop.
#[derive(Debug, Clone, Copy, PartialEq, Eq, Structural)]
pub enum LoopEvent {
    /// A round starts; `cancelled` tells whether the turn was cancelled.
    RoundStart { cancelled: bool },
    /// The AI answered with this many tool calls.
    Answer { tool_calls: usize },
    /// The next tool call is due; `cancelled` tells whether the turn was
    /// cancelled meanwhile.
    ToolTurn { cancelled: bool },
}

/// What the tool loop asks for.
#[derive(Debug, Clone, Copy, PartialEq, Eq, Structural)]
pub enum LoopAction {
    /// Report `aborted` and stop (see `tool_loop_aborted_event`).
    Abort,
    /// Fail: the loop used up its rounds (see `max_iterations_message`).
    ExceedIterations,
    /// Ask the AI, with the messages stored so far.
    AskAi,
    /// Store the answer as the final message and finish the stream.
    Finish,
    /// Give the answer's tool calls their ids, announce them and store the
    /// answer with its tool calls.
    StartTools { count: usize },
    /// Run the next tool call and store its result.
    RunTool,
    /// The event does not fit the loop's state; nothing changes.
    Reject,
}

/// The tool loop as plain values.
pub struct ToolLoopView {
    pub iterations: nat,
    pub max_iterations: nat,
    pub phase: LoopPhase,
}

/// A well-formed loop: its rounds never pass the bound, the AI is only
/// awaited below it, and a tool phase has a tool left.
pub open spec fn loop_wf(s: ToolLoopView) -> bool {
    &&& s.iterations <= s.max_iterations
    &&& s.max_iterations <= u32::MAX
    &&& (s.phase is AwaitingAnswer ==> s.iterations < s.max_iterations)
    &&& (s.phase matches LoopPhase::RunningTools { remaining } ==> remaining >= 1)
}

/// One step of the tool loop. A round starts by checking for cancellation,
/// then the bound on rounds, and then asks the AI. An answer without tool
/// calls finishes the loop; one with tool calls counts a round and runs them
/// one by one, each after a check for cancellation; after the last one the
/// next round starts. An event that does not fit changes nothing.
pub open spec fn loop_next(s: ToolLoopView, e: LoopEvent) -> (ToolLoopView, LoopAction) {
    let finished = ToolLoopView { phase: LoopPhase::Finished, ..s };
    match (s.phase, e) {
        (LoopPhase::BeforeRound, LoopEvent::RoundStart { cancelled }) => if cancelled {
            (finished, LoopAction::Abort)
        } else if s.iterations >= s.max_iterations {
            (finished, LoopAction::ExceedIterations)
        } else {
            (ToolLoopView { phase: LoopPhase::AwaitingAnswer, ..s }, LoopAction::AskAi)
        },
        (LoopPhase::AwaitingAnswer, LoopEvent::Answer { tool_calls }) => if tool_calls == 0 {
            (finished, LoopAction::Finish)
        } else {
            (
                ToolLoopView {
                    iterations: s.iterations + 1,
                    max_iterations: s.max_iterations,
                    phase: LoopPhase::RunningTools { remaining: tool_calls },
                },
                LoopAction::StartTools { count: tool_calls },
            )
        },
        (LoopPhase::RunningTools { remaining }, LoopEvent::ToolTurn { cancelled }) => if cancelled {
            (finished, LoopAction::Abort)
        } else if remaining <= 1 {
            (ToolLoopView { phase: LoopPhase::BeforeRound, ..s }, LoopAction::RunTool)
        } else {
            (ToolLoopView { phase: LoopPhase::RunningTools { remaining: (remaining - 1) as usize }, ..s }, LoopAction::RunTool)
        },
        _ => (s, LoopAction::Reject),
    }
}

/// The state of a chat turn's tool loop.
pub struct ToolLoop {
    iterations: u32,
    max_iterations: u32,
    phase: LoopPhase,
}

impl View for ToolLoop {
    type V = ToolLoopView;

    closed spec fn view(&self) -> ToolLoopView {
        ToolLoopView { iterations: self.iterations as nat, max_iterations: self.max_iterations as nat, phase: self.phase }
    }
}

impl ToolLoop {
    #[verifier::type_invariant]
    spec fn inv(self) -> bool {
        loop_wf(self@)
    }

    /// A loop about to start its first round, with at most `max_iterations`
    /// rounds of tool calls.
    pub fn new(max_iterations: u32) -> (r: Self)
        ensures
            r@ == (ToolLoopView { iterations: 0, max_iterations: max_iterations as nat, phase: LoopPhase::BeforeRound }),
    {
        ToolLoop { iterations: 0, max_iterations, phase: LoopPhase::BeforeRound }
    }

    /// The number of rounds with tool calls so far.
    pub fn iterations(&self) -> (n: u32)
        ensures
            n == self@.iterations,
    {
        self.iterations
    }

    /// Where the loop stands.
    pub fn phase(&self) -> (p: LoopPhase)
        ensures
            p == self@.phase,
    {
        self.phase
    }
}

/// One step of a chat turn's tool loop: the next state and what to do (see
/// `loop_next`).
pub fn tool_loop_step(state: ToolLoop, event: LoopEvent) -> (r: (ToolLoop, LoopAction))
    ensures
        (r.0@, r.1) == loop_next(state@, event),
        loop_wf(state@),
        loop_wf(r.0@),
{
    proof {
        use_type_invariant(&state);
    }
    let ToolLoop { iterations, max_iterations, phase } = state;
    match (phase, event) {
        (LoopPhase::BeforeRound, LoopEvent::RoundStart { cancelled }) => {
            if cancelled {
                (ToolLoop { iterations, max_iterations, phase: LoopPhase::Finished }, LoopAction::Abort)
            } else if iterations >= max_iterations {
                (ToolLoop { iterations, max_iterations, phase: LoopPhase::Finished }, LoopAction::ExceedIterations)
            } else {
                (ToolLoop { iterations, max_iterations, phase: LoopPhase::AwaitingAnswer }, LoopAction::AskAi)
            }
        },
        (LoopPhase::AwaitingAnswer, LoopEvent::Answer { tool_calls }) => {
            if tool_calls == 0 {
                (ToolLoop { iterations, max_iterations, phase: LoopPhase::Finished }, LoopAction::Finish)
            } else {
                (
                    ToolLoop {
                        iterations: iterations + 1,
                        max_iterations,
                        phase: LoopPhase::RunningTools { remaining: tool_calls },
                    },
                    LoopAction::StartTools { count: tool_calls },
                )
            }
        },
        (LoopPhase::RunningTools { remaining }, LoopEvent::ToolTurn { cancelled }) => {
            if cancelled {
                (ToolLoop { iterations, max_iterations, phase: LoopPhase::Finished }, LoopAction::Abort)
            } else if remaining <= 1 {
                (ToolLoop { iterations, max_iterations, phase: LoopPhase::BeforeRound }, LoopAction::RunTool)
            } else {
                (
                    ToolLoop { iterations, max_iterations, phase: LoopPhase::RunningTools { remaining: remaining - 1 } },
                    LoopAction::RunTool,
                )
            }
        },
        _ => (ToolLoop { iterations, max_iterations, phase }, LoopAction::Reject),
    }
}

/// The loop never passes its bound: every step keeps it well formed, so the
/// number of rounds with tool calls stays at most the bound.
pub proof fn law_loop_stays_within_bound(s: ToolLoopView, e: LoopEvent)
    requires
        loop_wf(s),
    ensures
        loop_wf(loop_next(s, e).0),
        loop_next(s, e).0.iterations <= s.max_iterations,
        loop_next(s, e).0.max_iterations == s.max_iterations,
{
}

/// The AI is asked only below the bound and only when the turn is not
/// cancelled; a cancellation that the loop sees ends it.
pub proof fn law_ai_asked_only_below_bound(s: ToolLoopView, e: LoopEvent)
    requires
        loop_wf(s),
    ensures
        loop_next(s, e).1 == LoopAction::AskAi ==> s.iterations < s.max_iterations
            && e == (LoopEvent::RoundStart { cancelled: false }),
        loop_next(s, e).1 == LoopAction::Abort ==> loop_next(s, e).0.phase == LoopPhase::Finished,
        (e == LoopEvent::RoundStart { cancelled: true } || e == LoopEvent::ToolTurn { cancelled: true })
            && loop_next(s, e).1 != LoopAction::Reject ==> loop_next(s, e).1 == LoopAction::Abort,
{
}

/// A finished loop stays finished: every event is rejected.
pub proof fn law_finished_is_final(s: ToolLoopView, e: LoopEvent)
    requires
        s.phase == LoopPhase::Finished,
    ensures
        loop_next(s, e) == (s, LoopAction::Reject),
{
}

/// Each round with tool calls counts exactly once: the count goes up by one
/// on an answer with tool calls and on nothing else.
pub proof fn law_round_counted_once(s: ToolLoopView, e: LoopEvent)
    requires
        loop_wf(s),
    ensures
        loop_next(s, e).0.iterations == if loop_next(s, e).1 matches LoopAction::StartTools { .. } {
            s.iterations + 1
        } else {
            s.iterations
        },
{
}

} // verus!
