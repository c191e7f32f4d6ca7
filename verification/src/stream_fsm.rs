//! The stream lifecycle as a finite state machine: a stream is registered,
//! runs, may be paused, resumed or aborted, queues messages while it is not
//! running, and is finally unregistered.
use crate::state::{ExecutionPhase, MessageQueue, QueuedMessage, QueuedMessageView};
use crate::text::{append_str, nat_decimal, push_u64};
use std::sync::Arc;
use tokio::sync::Notify;
use tokio_util::sync::CancellationToken;
use vstd::prelude::*;

verus! {

/// States of the stream lifecycle.
#[derive(Debug)]
pub enum StreamLifecycleState {
    /// No active stream
    Idle,
    /// Stream is actively running
    Running { cancel_token: CancellationToken, pause_notify: Arc<Notify>, phase: ExecutionPhase },
    /// Stream is paused and waiting for resume/abort
    Paused {
        cancel_token: CancellationToken,
        pause_notify: Arc<Notify>,
        phase: ExecutionPhase,
        message_queue: MessageQueue,
    },
    /// Stream has been aborted
    Aborted {
        cancel_token: CancellationToken,
        aborted_tool_ids: Vec<String>,
        message_queue: MessageQueue,
    },
}

/// Inputs that can be fed into the `StreamLifecycleFsm`.
#[derive(Debug)]
pub enum StreamLifecycleInput {
    /// Register a new stream
    Register { cancel_token: CancellationToken, pause_notify: Arc<Notify> },
    /// Pause the stream
    Pause,
    /// Resume a paused stream
    Resume,
    /// Abort the stream
    Abort { aborted_tool_ids: Vec<String> },
    /// Set the current execution phase
    SetPhase { phase: ExecutionPhase },
    /// Queue a message for later processing
    QueueMessage { message: QueuedMessage },
    /// Unregister the stream (cleanup)
    Unregister,
}

/// Actions emitted by the `StreamLifecycleFsm`.
#[derive(Debug)]
pub enum StreamLifecycleAction {
    /// Stream was registered
    Registered,
    /// Stream was paused
    Paused,
    /// Stream was resumed
    Resumed,
    /// Stream was aborted
    Aborted,
    /// Stream was unregistered
    Unregistered,
    /// Phase was changed
    PhaseChanged { phase: ExecutionPhase },
    /// Message was queued
    MessageQueued,
    /// Error occurred (invalid transition)
    Error { message: String },
}

/// The abstract lifecycle state: the same shape as `StreamLifecycleState`, with
/// queues and tool ids as sequences of plain values.
pub enum LifecycleView {
    Idle,
    Running { token: CancellationToken, notify: Arc<Notify>, phase: ExecutionPhase },
    Paused {
        token: CancellationToken,
        notify: Arc<Notify>,
        phase: ExecutionPhase,
        queue: Seq<QueuedMessageView>,
    },
    Aborted { token: CancellationToken, aborted: Seq<Seq<char>>, queue: Seq<QueuedMessageView> },
}

/// The abstract input.
pub enum InputView {
    Register { token: CancellationToken, notify: Arc<Notify> },
    Pause,
    Resume,
    Abort { aborted: Seq<Seq<char>> },
    SetPhase { phase: ExecutionPhase },
    QueueMessage { message: QueuedMessageView },
    Unregister,
}

/// The abstract action.
pub enum ActionView {
    Registered,
    Paused,
    Resumed,
    Aborted,
    Unregistered,
    PhaseChanged { phase: ExecutionPhase },
    MessageQueued,
    Error { message: Seq<char> },
}

/// The texts of a list of strings.
pub open spec fn texts(v: Seq<String>) -> Seq<Seq<char>> {
    v.map_values(|s: String| s@)
}

impl View for StreamLifecycleState {
    type V = LifecycleView;

    open spec fn view(&self) -> LifecycleView {
        match self {
            StreamLifecycleState::Idle => LifecycleView::Idle,
            StreamLifecycleState::Running { cancel_token, pause_notify, phase } => {
                LifecycleView::Running { token: *cancel_token, notify: *pause_notify, phase: *phase }
            },
            StreamLifecycleState::Paused { cancel_token, pause_notify, phase, message_queue } => {
                LifecycleView::Paused {
                    token: *cancel_token,
                    notify: *pause_notify,
                    phase: *phase,
                    queue: message_queue@,
                }
            },
            StreamLifecycleState::Aborted { cancel_token, aborted_tool_ids, message_queue } => {
                LifecycleView::Aborted {
                    token: *cancel_token,
                    aborted: texts(aborted_tool_ids@),
                    queue: message_queue@,
                }
            },
        }
    }
}

impl View for StreamLifecycleInput {
    type V = InputView;

    open spec fn view(&self) -> InputView {
        match self {
            StreamLifecycleInput::Register { cancel_token, pause_notify } => InputView::Register {
                token: *cancel_token,
                notify: *pause_notify,
            },
            StreamLifecycleInput::Pause => InputView::Pause,
            StreamLifecycleInput::Resume => InputView::Resume,
            StreamLifecycleInput::Abort { aborted_tool_ids } => InputView::Abort {
                aborted: texts(aborted_tool_ids@),
            },
            StreamLifecycleInput::SetPhase { phase } => InputView::SetPhase { phase: *phase },
            StreamLifecycleInput::QueueMessage { message } => InputView::QueueMessage {
                message: message@,
            },
            StreamLifecycleInput::Unregister => InputView::Unregister,
        }
    }
}

impl View for StreamLifecycleAction {
    type V = ActionView;

    open spec fn view(&self) -> ActionView {
        match self {
            StreamLifecycleAction::Registered => ActionView::Registered,
            StreamLifecycleAction::Paused => ActionView::Paused,
            StreamLifecycleAction::Resumed => ActionView::Resumed,
            StreamLifecycleAction::Aborted => ActionView::Aborted,
            StreamLifecycleAction::Unregistered => ActionView::Unregistered,
            StreamLifecycleAction::PhaseChanged { phase } => ActionView::PhaseChanged {
                phase: *phase,
            },
            StreamLifecycleAction::MessageQueued => ActionView::MessageQueued,
            StreamLifecycleAction::Error { message } => ActionView::Error { message: message@ },
        }
    }
}

/// Declaration-order index of a state's variant (what `mem::discriminant` shows).
pub open spec fn state_index(s: LifecycleView) -> nat {
    match s {
        LifecycleView::Idle => 0,
        LifecycleView::Running { .. } => 1,
        LifecycleView::Paused { .. } => 2,
        LifecycleView::Aborted { .. } => 3,
    }
}

/// Declaration-order index of an input's variant.
pub open spec fn input_index(i: InputView) -> nat {
    match i {
        InputView::Register { .. } => 0,
        InputView::Pause => 1,
        InputView::Resume => 2,
        InputView::Abort { .. } => 3,
        InputView::SetPhase { .. } => 4,
        InputView::QueueMessage { .. } => 5,
        InputView::Unregister => 6,
    }
}

/// The message of the error action for an input that the state does not accept.
pub open spec fn invalid_transition_text(state: nat, input: nat) -> Seq<char> {
    "Invalid transition: state=Discriminant("@ + nat_decimal(state) + "), input=Discriminant("@
        + nat_decimal(input) + ")"@
}

/// One step of the lifecycle: the state after `i` and the action it emits.
pub open spec fn lifecycle_step(s: LifecycleView, i: InputView) -> (LifecycleView, ActionView) {
    match s {
        LifecycleView::Idle => match i {
            InputView::Register { token, notify } => (
                LifecycleView::Running { token, notify, phase: ExecutionPhase::AiCall },
                ActionView::Registered,
            ),
            _ => lifecycle_reject(s, i),
        },
        LifecycleView::Running { token, notify, phase } => match i {
            InputView::SetPhase { phase: p } => (
                LifecycleView::Running { token, notify, phase: p },
                ActionView::PhaseChanged { phase: p },
            ),
            InputView::Pause => (
                LifecycleView::Paused { token, notify, phase, queue: Seq::empty() },
                ActionView::Paused,
            ),
            InputView::Abort { aborted } => (
                LifecycleView::Aborted { token, aborted, queue: Seq::empty() },
                ActionView::Aborted,
            ),
            InputView::Unregister => (LifecycleView::Idle, ActionView::Unregistered),
            _ => lifecycle_reject(s, i),
        },
        LifecycleView::Paused { token, notify, phase, queue } => match i {
            InputView::Resume => (LifecycleView::Running { token, notify, phase }, ActionView::Resumed),
            InputView::Abort { aborted } => (
                LifecycleView::Aborted { token, aborted, queue },
                ActionView::Aborted,
            ),
            InputView::QueueMessage { message } => (
                LifecycleView::Paused { token, notify, phase, queue: queue.push(message) },
                ActionView::MessageQueued,
            ),
            InputView::Unregister => (LifecycleView::Idle, ActionView::Unregistered),
            _ => lifecycle_reject(s, i),
        },
        LifecycleView::Aborted { token, aborted, queue } => match i {
            InputView::QueueMessage { message } => (
                LifecycleView::Aborted { token, aborted, queue: queue.push(message) },
                ActionView::MessageQueued,
            ),
            InputView::Unregister => (LifecycleView::Idle, ActionView::Unregistered),
            _ => lifecycle_reject(s, i),
        },
    }
}

/// An input the state does not accept leaves the state as it is and reports it.
pub open spec fn lifecycle_reject(s: LifecycleView, i: InputView) -> (LifecycleView, ActionView) {
    (s, ActionView::Error { message: invalid_transition_text(state_index(s), input_index(i)) })
}

/// The cancel token a state holds, if any.
pub open spec fn token_of(s: LifecycleView) -> Option<CancellationToken> {
    match s {
        LifecycleView::Idle => None,
        LifecycleView::Running { token, .. } => Some(token),
        LifecycleView::Paused { token, .. } => Some(token),
        LifecycleView::Aborted { token, .. } => Some(token),
    }
}

/// Pausing a running stream and resuming it gives back the same running stream:
/// same token, same notifier, same phase.
pub proof fn law_pause_resume_round_trip(token: CancellationToken, notify: Arc<Notify>, phase: ExecutionPhase)
    ensures
        lifecycle_step(running_state(token, notify, phase), InputView::Pause).1 == ActionView::Paused,
        lifecycle_step(
            lifecycle_step(running_state(token, notify, phase), InputView::Pause).0,
            InputView::Resume,
        ) == (running_state(token, notify, phase), ActionView::Resumed),
{
}

/// An input that the state does not accept changes nothing and is answered with
/// an error naming the state and the input.
pub proof fn law_rejected_input_keeps_state(s: LifecycleView, i: InputView)
    ensures
        (lifecycle_step(s, i).1 is Error) ==> lifecycle_step(s, i) == lifecycle_reject(s, i),
        (lifecycle_step(s, i).1 is Error) ==> lifecycle_step(s, i).0 == s,
{
}

/// Unregistering ends every stream, from any state but `Idle`; in `Idle` it is
/// refused.
pub proof fn law_unregister_ends_stream(s: LifecycleView)
    ensures
        !(s is Idle) ==> lifecycle_step(s, InputView::Unregister) == (LifecycleView::Idle, ActionView::Unregistered),
        (s is Idle) ==> (lifecycle_step(s, InputView::Unregister).1 is Error),
{
}

/// A stream can be registered only when there is none, and it starts running
/// in the AI-call phase with the given token and notifier.
pub proof fn law_register_only_when_idle(s: LifecycleView, token: CancellationToken, notify: Arc<Notify>)
    ensures
        (lifecycle_step(s, register_input(token, notify)).1 is Registered) <==> (s is Idle),
        (s is Idle) ==> lifecycle_step(s, register_input(token, notify)).0 == running_state(
            token,
            notify,
            ExecutionPhase::AiCall,
        ),
{
}

/// The input that registers a stream.
pub open spec fn register_input(token: CancellationToken, notify: Arc<Notify>) -> InputView {
    InputView::Register { token, notify }
}

/// A running state.
pub open spec fn running_state(token: CancellationToken, notify: Arc<Notify>, phase: ExecutionPhase) -> LifecycleView {
    LifecycleView::Running { token, notify, phase }
}

/// The queue a state holds (empty when it holds none).
pub open spec fn queue_of(s: LifecycleView) -> Seq<QueuedMessageView> {
    match s {
        LifecycleView::Paused { queue, .. } => queue,
        LifecycleView::Aborted { queue, .. } => queue,
        _ => Seq::empty(),
    }
}

/// The same state with another queue.
pub open spec fn with_queue(s: LifecycleView, q: Seq<QueuedMessageView>) -> LifecycleView {
    match s {
        LifecycleView::Paused { token, notify, phase, .. } => LifecycleView::Paused { token, notify, phase, queue: q },
        LifecycleView::Aborted { token, aborted, .. } => LifecycleView::Aborted { token, aborted, queue: q },
        _ => s,
    }
}

/// Messages can be queued only while the stream is paused or aborted; each one
/// is appended at the end and nothing else changes.
pub proof fn law_queue_appends(s: LifecycleView, m: QueuedMessageView)
    ensures
        (s is Paused || s is Aborted) ==> lifecycle_step(s, queue_input(m)) == (with_queue(
            s,
            queue_of(s).push(m),
        ), ActionView::MessageQueued),
        (s is Running || s is Idle) ==> (lifecycle_step(s, queue_input(m)).1 is Error),
{
}

/// The input that queues a message.
pub open spec fn queue_input(m: QueuedMessageView) -> InputView {
    InputView::QueueMessage { message: m }
}

/// Aborting a paused stream keeps the messages queued while it was paused, and
/// keeps its token.
pub proof fn law_abort_keeps_queue(s: LifecycleView, aborted: Seq<Seq<char>>)
    ensures
        (s is Paused) ==> lifecycle_step(s, abort_input(aborted)).0 == aborted_state(
            token_of(s).unwrap(),
            aborted,
            queue_of(s),
        ),
{
}

/// The input that aborts a stream.
pub open spec fn abort_input(aborted: Seq<Seq<char>>) -> InputView {
    InputView::Abort { aborted }
}

/// An aborted state.
pub open spec fn aborted_state(token: CancellationToken, aborted: Seq<Seq<char>>, queue: Seq<QueuedMessageView>) -> LifecycleView {
    LifecycleView::Aborted { token, aborted, queue }
}

/// As long as a stream stays registered it keeps the cancel token it was
/// registered with.
pub proof fn law_token_kept(s: LifecycleView, i: InputView)
    ensures
        !(s is Idle) && !(lifecycle_step(s, i).0 is Idle) ==> token_of(lifecycle_step(s, i).0) == token_of(s),
{
}

/// The phase of a running or paused stream changes only through `SetPhase`.
pub proof fn law_phase_changes_only_by_set_phase(s: LifecycleView, i: InputView)
    ensures
        !(i is SetPhase) ==> phase_kept(s, lifecycle_step(s, i).0),
{
}

/// Running or paused states on both sides have the same phase.
pub open spec fn phase_kept(s: LifecycleView, t: LifecycleView) -> bool {
    match (s, t) {
        (LifecycleView::Running { phase: p, .. }, LifecycleView::Paused { phase: q, .. }) => p == q,
        (LifecycleView::Running { phase: p, .. }, LifecycleView::Running { phase: q, .. }) => p == q,
        (LifecycleView::Paused { phase: p, .. }, LifecycleView::Running { phase: q, .. }) => p == q,
        (LifecycleView::Paused { phase: p, .. }, LifecycleView::Paused { phase: q, .. }) => p == q,
        _ => true,
    }
}

/// The message of the error action.
fn invalid_transition_message(state: u64, input: u64) -> (m: String)
    ensures
        m@ == invalid_transition_text(state as nat, input as nat),
{
    let mut m = String::new();
    append_str(&mut m, "Invalid transition: state=Discriminant(");
    push_u64(&mut m, state);
    append_str(&mut m, "), input=Discriminant(");
    push_u64(&mut m, input);
    append_str(&mut m, ")");
    assert(m@ =~= invalid_transition_text(state as nat, input as nat));
    m
}

impl StreamLifecycleState {
    fn index(&self) -> (k: u64)
        ensures
            k == state_index(self@),
    {
        match self {
            StreamLifecycleState::Idle => 0,
            StreamLifecycleState::Running { .. } => 1,
            StreamLifecycleState::Paused { .. } => 2,
            StreamLifecycleState::Aborted { .. } => 3,
        }
    }
}

impl StreamLifecycleInput {
    fn index(&self) -> (k: u64)
        ensures
            k == input_index(self@),
    {
        match self {
            StreamLifecycleInput::Register { .. } => 0,
            StreamLifecycleInput::Pause => 1,
            StreamLifecycleInput::Resume => 2,
            StreamLifecycleInput::Abort { .. } => 3,
            StreamLifecycleInput::SetPhase { .. } => 4,
            StreamLifecycleInput::QueueMessage { .. } => 5,
            StreamLifecycleInput::Unregister => 6,
        }
    }
}

/// Finite state machine for managing a stream's lifecycle.
pub struct StreamLifecycleFsm {
    chat_id: i64,
    state: StreamLifecycleState,
}

impl StreamLifecycleFsm {
    /// The chat this machine belongs to.
    pub closed spec fn spec_chat_id(&self) -> i64 {
        self.chat_id
    }

    /// The machine's current abstract state.
    pub closed spec fn spec_state(&self) -> LifecycleView {
        self.state@
    }

    /// A new machine in the `Idle` state.
    pub fn new(chat_id: i64) -> (fsm: Self)
        ensures
            fsm.spec_chat_id() == chat_id,
            fsm.spec_state() == LifecycleView::Idle,
    {
        StreamLifecycleFsm { chat_id, state: StreamLifecycleState::Idle }
    }

    /// The current state.
    pub fn state(&self) -> (s: &StreamLifecycleState)
        ensures
            s@ == self.spec_state(),
    {
        &self.state
    }

    /// The chat id.
    pub fn chat_id(&self) -> (id: i64)
        ensures
            id == self.spec_chat_id(),
    {
        self.chat_id
    }

    /// Feeds one input to the machine and returns the actions it emits (always
    /// exactly one): the state moves as `lifecycle_step` says.
    pub fn handle(&mut self, input: StreamLifecycleInput) -> (actions: Vec<StreamLifecycleAction>)
        ensures
            final(self).spec_chat_id() == old(self).spec_chat_id(),
            actions@.len() == 1,
            final(self).spec_state() == lifecycle_step(old(self).spec_state(), input@).0,
            actions@[0]@ == lifecycle_step(old(self).spec_state(), input@).1,
    {
        let mut st = StreamLifecycleState::Idle;
        core::mem::swap(&mut st, &mut self.state);
        let si = st.index();
        let ii = input.index();
        let (next, action) = match st {
            StreamLifecycleState::Idle => match input {
                StreamLifecycleInput::Register { cancel_token, pause_notify } => (
                    StreamLifecycleState::Running {
                        cancel_token,
                        pause_notify,
                        phase: ExecutionPhase::AiCall,
                    },
                    StreamLifecycleAction::Registered,
                ),
                _ => (
                    StreamLifecycleState::Idle,
                    StreamLifecycleAction::Error { message: invalid_transition_message(si, ii) },
                ),
            },
            StreamLifecycleState::Running { cancel_token, pause_notify, phase } => match input {
                StreamLifecycleInput::SetPhase { phase: p } => (
                    StreamLifecycleState::Running { cancel_token, pause_notify, phase: p },
                    StreamLifecycleAction::PhaseChanged { phase: p },
                ),
                StreamLifecycleInput::Pause => (
                    StreamLifecycleState::Paused {
                        cancel_token,
                        pause_notify,
                        phase,
                        message_queue: MessageQueue::new(),
                    },
                    StreamLifecycleAction::Paused,
                ),
                StreamLifecycleInput::Abort { aborted_tool_ids } => (
                    StreamLifecycleState::Aborted {
                        cancel_token,
                        aborted_tool_ids,
                        message_queue: MessageQueue::new(),
                    },
                    StreamLifecycleAction::Aborted,
                ),
                StreamLifecycleInput::Unregister => (
                    StreamLifecycleState::Idle,
                    StreamLifecycleAction::Unregistered,
                ),
                _ => (
                    StreamLifecycleState::Running { cancel_token, pause_notify, phase },
                    StreamLifecycleAction::Error { message: invalid_transition_message(si, ii) },
                ),
            },
            StreamLifecycleState::Paused { cancel_token, pause_notify, phase, message_queue } => {
                match input {
                    StreamLifecycleInput::Resume => (
                        StreamLifecycleState::Running { cancel_token, pause_notify, phase },
                        StreamLifecycleAction::Resumed,
                    ),
                    StreamLifecycleInput::Abort { aborted_tool_ids } => (
                        StreamLifecycleState::Aborted {
                            cancel_token,
                            aborted_tool_ids,
                            message_queue,
                        },
                        StreamLifecycleAction::Aborted,
                    ),
                    StreamLifecycleInput::QueueMessage { message } => {
                        let mut queue = message_queue;
                        queue.push(message);
                        (
                            StreamLifecycleState::Paused {
                                cancel_token,
                                pause_notify,
                                phase,
                                message_queue: queue,
                            },
                            StreamLifecycleAction::MessageQueued,
                        )
                    },
                    StreamLifecycleInput::Unregister => (
                        StreamLifecycleState::Idle,
                        StreamLifecycleAction::Unregistered,
                    ),
                    _ => (
                        StreamLifecycleState::Paused {
                            cancel_token,
                            pause_notify,
                            phase,
                            message_queue,
                        },
                        StreamLifecycleAction::Error {
                            message: invalid_transition_message(si, ii),
                        },
                    ),
                }
            },
            StreamLifecycleState::Aborted { cancel_token, aborted_tool_ids, message_queue } => {
                match input {
                    StreamLifecycleInput::QueueMessage { message } => {
                        let mut queue = message_queue;
                        queue.push(message);
                        (
                            StreamLifecycleState::Aborted {
                                cancel_token,
                                aborted_tool_ids,
                                message_queue: queue,
                            },
                            StreamLifecycleAction::MessageQueued,
                        )
                    },
                    StreamLifecycleInput::Unregister => (
                        StreamLifecycleState::Idle,
                        StreamLifecycleAction::Unregistered,
                    ),
                    _ => (
                        StreamLifecycleState::Aborted {
                            cancel_token,
                            aborted_tool_ids,
                            message_queue,
                        },
                        StreamLifecycleAction::Error {
                            message: invalid_transition_message(si, ii),
                        },
                    ),
                }
            },
        };
        self.state = next;
        let mut actions = Vec::new();
        actions.push(action);
        actions
    }

    /// Is the stream running?
    pub fn is_running(&self) -> (b: bool)
        ensures
            b == (self.spec_state() is Running),
    {
        match self.state {
            StreamLifecycleState::Running { .. } => true,
            _ => false,
        }
    }

    /// Is the stream paused?
    pub fn is_paused(&self) -> (b: bool)
        ensures
            b == (self.spec_state() is Paused),
    {
        match self.state {
            StreamLifecycleState::Paused { .. } => true,
            _ => false,
        }
    }

    /// Has the stream been aborted?
    pub fn is_aborted(&self) -> (b: bool)
        ensures
            b == (self.spec_state() is Aborted),
    {
        match self.state {
            StreamLifecycleState::Aborted { .. } => true,
            _ => false,
        }
    }

    /// Is there no stream?
    pub fn is_idle(&self) -> (b: bool)
        ensures
            b == (self.spec_state() is Idle),
    {
        match self.state {
            StreamLifecycleState::Idle => true,
            _ => false,
        }
    }

    /// The cancel token, in every state but `Idle`.
    pub fn cancel_token(&self) -> (t: Option<&CancellationToken>)
        ensures
            match self.spec_state() {
                LifecycleView::Idle => t is None,
                LifecycleView::Running { token, .. } => t == Some(&token),
                LifecycleView::Paused { token, .. } => t == Some(&token),
                LifecycleView::Aborted { token, .. } => t == Some(&token),
            },
    {
        match &self.state {
            StreamLifecycleState::Running { cancel_token, .. } => Some(cancel_token),
            StreamLifecycleState::Paused { cancel_token, .. } => Some(cancel_token),
            StreamLifecycleState::Aborted { cancel_token, .. } => Some(cancel_token),
            StreamLifecycleState::Idle => None,
        }
    }

    /// The current phase, while running or paused.
    pub fn phase(&self) -> (p: Option<&ExecutionPhase>)
        ensures
            match self.spec_state() {
                LifecycleView::Running { phase, .. } => p == Some(&phase),
                LifecycleView::Paused { phase, .. } => p == Some(&phase),
                _ => p is None,
            },
    {
        match &self.state {
            StreamLifecycleState::Running { phase, .. } => Some(phase),
            StreamLifecycleState::Paused { phase, .. } => Some(phase),
            StreamLifecycleState::Aborted { .. } => None,
            StreamLifecycleState::Idle => None,
        }
    }

    /// The message queue, while paused or aborted.
    pub fn message_queue(&self) -> (q: Option<&MessageQueue>)
        ensures
            match self.spec_state() {
                LifecycleView::Paused { queue, .. } => q is Some && q->0@ == queue,
                LifecycleView::Aborted { queue, .. } => q is Some && q->0@ == queue,
                _ => q is None,
            },
    {
        match &self.state {
            StreamLifecycleState::Paused { message_queue, .. } => Some(message_queue),
            StreamLifecycleState::Aborted { message_queue, .. } => Some(message_queue),
            StreamLifecycleState::Running { .. } => None,
            StreamLifecycleState::Idle => None,
        }
    }

    /// The ids of the tool calls that were aborted, in the `Aborted` state.
    pub fn aborted_tool_ids(&self) -> (ids: Option<&Vec<String>>)
        ensures
            match self.spec_state() {
                LifecycleView::Aborted { aborted, .. } => ids is Some && texts(ids->0@) == aborted,
                _ => ids is None,
            },
    {
        match &self.state {
            StreamLifecycleState::Aborted { aborted_tool_ids, .. } => Some(aborted_tool_ids),
            _ => None,
        }
    }

    /// The pause notifier, while running or paused.
    pub fn pause_notify(&self) -> (n: Option<&Arc<Notify>>)
        ensures
            match self.spec_state() {
                LifecycleView::Running { notify, .. } => n == Some(&notify),
                LifecycleView::Paused { notify, .. } => n == Some(&notify),
                _ => n is None,
            },
    {
        match &self.state {
            StreamLifecycleState::Running { pause_notify, .. } => Some(pause_notify),
            StreamLifecycleState::Paused { pause_notify, .. } => Some(pause_notify),
            StreamLifecycleState::Aborted { .. } => None,
            StreamLifecycleState::Idle => None,
        }
    }
}

/// The name of an execution phase.
pub open spec fn phase_text(p: ExecutionPhase) -> Seq<char> {
    match p {
        ExecutionPhase::AiCall => "AiCall"@,
        ExecutionPhase::ToolExecution => "ToolExecution"@,
    }
}

fn push_phase(out: &mut String, p: ExecutionPhase)
    ensures
        final(out)@ == old(out)@ + phase_text(p),
{
    match p {
        ExecutionPhase::AiCall => append_str(out, "AiCall"),
        ExecutionPhase::ToolExecution => append_str(out, "ToolExecution"),
    }
}

/// A one-line description of a state, as logs show it.
pub open spec fn state_text(s: LifecycleView) -> Seq<char> {
    match s {
        LifecycleView::Idle => "Idle"@,
        LifecycleView::Running { phase, .. } => "Running { phase: "@ + phase_text(phase) + " }"@,
        LifecycleView::Paused { phase, queue, .. } => "Paused { phase: "@ + phase_text(phase) + ", queue_size: "@
            + nat_decimal(queue.len()) + " }"@,
        LifecycleView::Aborted { aborted, queue, .. } => "Aborted { aborted_tools: "@ + nat_decimal(aborted.len())
            + ", queue_size: "@ + nat_decimal(queue.len()) + " }"@,
    }
}

/// A one-line description of an input; a queued message is described by the
/// length of its content in bytes.
pub open spec fn input_text(i: InputView) -> Seq<char> {
    match i {
        InputView::Register { .. } => "Register"@,
        InputView::Pause => "Pause"@,
        InputView::Resume => "Resume"@,
        InputView::Abort { aborted } => "Abort { aborted_tools: "@ + nat_decimal(aborted.len()) + " }"@,
        InputView::SetPhase { phase } => "SetPhase { phase: "@ + phase_text(phase) + " }"@,
        InputView::QueueMessage { message } => "QueueMessage { content_length: "@ + nat_decimal(
            (vstd::utf8::encode_utf8(message.content).len() as usize) as nat,
        ) + " }"@,
        InputView::Unregister => "Unregister"@,
    }
}

/// A one-line description of an action.
pub open spec fn action_text(a: ActionView) -> Seq<char> {
    match a {
        ActionView::Registered => "Registered"@,
        ActionView::Paused => "Paused"@,
        ActionView::Resumed => "Resumed"@,
        ActionView::Aborted => "Aborted"@,
        ActionView::Unregistered => "Unregistered"@,
        ActionView::PhaseChanged { phase } => "PhaseChanged { phase: "@ + phase_text(phase) + " }"@,
        ActionView::MessageQueued => "MessageQueued"@,
        ActionView::Error { message } => "Error { message: "@ + message + " }"@,
    }
}

impl StreamLifecycleState {
    /// A one-line description of the state (see `state_text`).
    pub fn describe(&self) -> (r: String)
        ensures
            r@ == state_text(self@),
    {
        let mut r = String::new();
        match self {
            StreamLifecycleState::Idle => append_str(&mut r, "Idle"),
            StreamLifecycleState::Running { phase, .. } => {
                append_str(&mut r, "Running { phase: ");
                push_phase(&mut r, *phase);
                append_str(&mut r, " }");
            },
            StreamLifecycleState::Paused { phase, message_queue, .. } => {
                append_str(&mut r, "Paused { phase: ");
                push_phase(&mut r, *phase);
                append_str(&mut r, ", queue_size: ");
                push_u64(&mut r, message_queue.len() as u64);
                append_str(&mut r, " }");
            },
            StreamLifecycleState::Aborted { aborted_tool_ids, message_queue, .. } => {
                assert(texts(aborted_tool_ids@).len() == aborted_tool_ids@.len());
                append_str(&mut r, "Aborted { aborted_tools: ");
                push_u64(&mut r, aborted_tool_ids.len() as u64);
                append_str(&mut r, ", queue_size: ");
                push_u64(&mut r, message_queue.len() as u64);
                append_str(&mut r, " }");
            },
        }
        r
    }
}

impl StreamLifecycleInput {
    /// A one-line description of the input (see `input_text`).
    pub fn describe(&self) -> (r: String)
        ensures
            r@ == input_text(self@),
    {
        let mut r = String::new();
        match self {
            StreamLifecycleInput::Register { .. } => append_str(&mut r, "Register"),
            StreamLifecycleInput::Pause => append_str(&mut r, "Pause"),
            StreamLifecycleInput::Resume => append_str(&mut r, "Resume"),
            StreamLifecycleInput::Abort { aborted_tool_ids } => {
                assert(texts(aborted_tool_ids@).len() == aborted_tool_ids@.len());
                append_str(&mut r, "Abort { aborted_tools: ");
                push_u64(&mut r, aborted_tool_ids.len() as u64);
                append_str(&mut r, " }");
            },
            StreamLifecycleInput::SetPhase { phase } => {
                append_str(&mut r, "SetPhase { phase: ");
                push_phase(&mut r, *phase);
                append_str(&mut r, " }");
            },
            StreamLifecycleInput::QueueMessage { message } => {
                append_str(&mut r, "QueueMessage { content_length: ");
                push_u64(&mut r, message.content.as_str().len() as u64);
                append_str(&mut r, " }");
            },
            StreamLifecycleInput::Unregister => append_str(&mut r, "Unregister"),
        }
        r
    }
}

impl StreamLifecycleAction {
    /// A one-line description of the action (see `action_text`).
    pub fn describe(&self) -> (r: String)
        ensures
            r@ == action_text(self@),
    {
        let mut r = String::new();
        match self {
            StreamLifecycleAction::Registered => append_str(&mut r, "Registered"),
            StreamLifecycleAction::Paused => append_str(&mut r, "Paused"),
            StreamLifecycleAction::Resumed => append_str(&mut r, "Resumed"),
            StreamLifecycleAction::Aborted => append_str(&mut r, "Aborted"),
            StreamLifecycleAction::Unregistered => append_str(&mut r, "Unregistered"),
            StreamLifecycleAction::PhaseChanged { phase } => {
                append_str(&mut r, "PhaseChanged { phase: ");
                push_phase(&mut r, *phase);
                append_str(&mut r, " }");
            },
            StreamLifecycleAction::MessageQueued => append_str(&mut r, "MessageQueued"),
            StreamLifecycleAction::Error { message } => {
                append_str(&mut r, "Error { message: ");
                append_str(&mut r, message.as_str());
                append_str(&mut r, " }");
            },
        }
        r
    }
}

} // verus!
