//! Stream bookkeeping: execution phases, queued messages and the per-chat
//! stream states.
use std::sync::Arc;
use tokio::sync::Notify;
use tokio_util::sync::CancellationToken;
use crate::stream_fsm::{texts, LifecycleView};
use vstd::prelude::*;

verus! {

/// Tracks which phase of the tool loop is currently executing.
#[derive(Debug, Clone, Copy, PartialEq, Eq, Structural)]
pub enum ExecutionPhase {
    /// AI is being called (streaming response)
    AiCall,
    /// Tool calls are being executed
    ToolExecution,
}

/// A tool call that was emitted by the AI but not yet executed.
#[derive(Debug, Clone, PartialEq)]
pub struct PendingToolCall {
    pub id: String,
    pub name: String,
    pub arguments: String,
}

/// A message queued while a chat is paused or aborted.
#[derive(Debug)]
pub struct QueuedMessage {
    pub content: String,
    pub model: String,
    /// When the message was queued, in milliseconds since the Unix epoch (UTC).
    pub queued_at: i64,
}

/// The plain values a queued message holds.
pub struct QueuedMessageView {
    pub content: Seq<char>,
    pub model: Seq<char>,
    pub queued_at: int,
}

impl View for QueuedMessage {
    type V = QueuedMessageView;

    open spec fn view(&self) -> QueuedMessageView {
        QueuedMessageView { content: self.content@, model: self.model@, queued_at: self.queued_at as int }
    }
}

impl Clone for QueuedMessage {
    fn clone(&self) -> (r: Self)
        ensures
            r@ == self@,
    {
        QueuedMessage {
            content: self.content.clone(),
            model: self.model.clone(),
            queued_at: self.queued_at,
        }
    }
}

/// The views of a sequence of queued messages.
pub open spec fn queue_view(s: Seq<QueuedMessage>) -> Seq<QueuedMessageView> {
    s.map_values(|m: QueuedMessage| m@)
}

/// Clones a list of queued messages, keeping every message's contents.
fn clone_messages(v: &Vec<QueuedMessage>) -> (r: Vec<QueuedMessage>)
    ensures
        queue_view(r@) == queue_view(v@),
{
    let mut r: Vec<QueuedMessage> = Vec::new();
    let mut i: usize = 0;
    while i < v.len()
        invariant
            i <= v.len(),
            queue_view(r@) == queue_view(v@.take(i as int)),
        decreases v.len() - i,
    {
        let c = v[i].clone();
        assert(c@ == v@[i as int]@);
        let ghost prev = r@;
        r.push(c);
        assert(r@ == prev.push(c));
        assert(queue_view(v@.take(i + 1)) =~= queue_view(v@.take(i as int)).push(v@[i as int]@));
        assert(queue_view(r@) =~= queue_view(prev).push(c@));
        i += 1;
    }
    assert(v@.take(v@.len() as int) =~= v@);
    r
}

/// The messages queued for a chat, in arrival order.
#[derive(Debug, Default)]
pub struct MessageQueue {
    pub messages: Vec<QueuedMessage>,
}

impl View for MessageQueue {
    type V = Seq<QueuedMessageView>;

    open spec fn view(&self) -> Seq<QueuedMessageView> {
        queue_view(self.messages@)
    }
}

impl Clone for MessageQueue {
    fn clone(&self) -> (r: Self)
        ensures
            r@ == self@,
    {
        MessageQueue { messages: clone_messages(&self.messages) }
    }
}

impl MessageQueue {
    /// An empty queue.
    pub fn new() -> (q: Self)
        ensures
            q@ == Seq::<QueuedMessageView>::empty(),
    {
        let q = MessageQueue { messages: Vec::new() };
        assert(q@ =~= Seq::<QueuedMessageView>::empty());
        q
    }

    /// Appends a message at the end of the queue.
    pub fn push(&mut self, message: QueuedMessage)
        ensures
            final(self)@ == old(self)@.push(message@),
    {
        self.messages.push(message);
        assert(final(self)@ =~= old(self)@.push(message@));
    }

    /// Removes and returns every queued message, oldest first.
    pub fn drain(&mut self) -> (r: Vec<QueuedMessage>)
        ensures
            queue_view(r@) == old(self)@,
            final(self)@ == Seq::<QueuedMessageView>::empty(),
    {
        let mut taken: Vec<QueuedMessage> = Vec::new();
        core::mem::swap(&mut taken, &mut self.messages);
        assert(self@ =~= Seq::<QueuedMessageView>::empty());
        taken
    }

    /// Is the queue empty?
    pub fn is_empty(&self) -> (b: bool)
        ensures
            b == (self@.len() == 0),
    {
        self.messages.len() == 0
    }

    /// Number of queued messages.
    pub fn len(&self) -> (n: usize)
        ensures
            n == self@.len(),
    {
        self.messages.len()
    }
}

/// The state of an active stream.
#[derive(Debug)]
pub enum StreamState {
    Running { cancel_token: CancellationToken, pause_notify: Arc<Notify>, phase: ExecutionPhase },
    Paused {
        cancel_token: CancellationToken,
        pause_notify: Arc<Notify>,
        phase: ExecutionPhase,
        message_queue: MessageQueue,
    },
    Aborted {
        cancel_token: CancellationToken,
        aborted_tool_ids: Vec<String>,
        message_queue: MessageQueue,
    },
}

impl View for StreamState {
    type V = LifecycleView;

    open spec fn view(&self) -> LifecycleView {
        match self {
            StreamState::Running { cancel_token, pause_notify, phase } => LifecycleView::Running {
                token: *cancel_token,
                notify: *pause_notify,
                phase: *phase,
            },
            StreamState::Paused { cancel_token, pause_notify, phase, message_queue } => {
                LifecycleView::Paused {
                    token: *cancel_token,
                    notify: *pause_notify,
                    phase: *phase,
                    queue: message_queue@,
                }
            },
            StreamState::Aborted { cancel_token, aborted_tool_ids, message_queue } => {
                LifecycleView::Aborted {
                    token: *cancel_token,
                    aborted: texts(aborted_tool_ids@),
                    queue: message_queue@,
                }
            },
        }
    }
}

impl StreamState {
    /// The stream's cancel token.
    pub fn cancel_token(&self) -> (t: &CancellationToken)
        ensures
            match self@ {
                LifecycleView::Running { token, .. } => *t == token,
                LifecycleView::Paused { token, .. } => *t == token,
                LifecycleView::Aborted { token, .. } => *t == token,
                LifecycleView::Idle => false,
            },
    {
        match self {
            StreamState::Running { cancel_token, .. } => cancel_token,
            StreamState::Paused { cancel_token, .. } => cancel_token,
            StreamState::Aborted { cancel_token, .. } => cancel_token,
        }
    }

    /// Has the stream been aborted?
    pub fn is_aborted(&self) -> (b: bool)
        ensures
            b == (self@ is Aborted),
    {
        match self {
            StreamState::Aborted { .. } => true,
            _ => false,
        }
    }

    /// The phase, while running or paused.
    pub fn phase(&self) -> (p: Option<&ExecutionPhase>)
        ensures
            match self@ {
                LifecycleView::Running { phase, .. } => p == Some(&phase),
                LifecycleView::Paused { phase, .. } => p == Some(&phase),
                _ => p is None,
            },
    {
        match self {
            StreamState::Running { phase, .. } => Some(phase),
            StreamState::Paused { phase, .. } => Some(phase),
            StreamState::Aborted { .. } => None,
        }
    }

    /// The message queue, while paused or aborted.
    pub fn message_queue(&self) -> (q: Option<&MessageQueue>)
        ensures
            match self@ {
                LifecycleView::Paused { queue, .. } => q is Some && q->0@ == queue,
                LifecycleView::Aborted { queue, .. } => q is Some && q->0@ == queue,
                _ => q is None,
            },
    {
        match self {
            StreamState::Paused { message_queue, .. } => Some(message_queue),
            StreamState::Aborted { message_queue, .. } => Some(message_queue),
            StreamState::Running { .. } => None,
        }
    }
}

/// A snapshot of a stream's state, as reported to clients.
#[derive(Debug)]
pub struct StreamStateInfo {
    pub is_running: bool,
    pub is_paused: bool,
    pub is_aborted: bool,
    pub phase: Option<ExecutionPhase>,
    pub aborted_tool_ids: Vec<String>,
    pub queued_messages: Vec<QueuedMessage>,
}

/// The plain values of a snapshot.
pub struct StreamStateInfoView {
    pub is_running: bool,
    pub is_paused: bool,
    pub is_aborted: bool,
    pub phase: Option<ExecutionPhase>,
    pub aborted_tool_ids: Seq<Seq<char>>,
    pub queued_messages: Seq<QueuedMessageView>,
}

impl View for StreamStateInfo {
    type V = StreamStateInfoView;

    open spec fn view(&self) -> StreamStateInfoView {
        StreamStateInfoView {
            is_running: self.is_running,
            is_paused: self.is_paused,
            is_aborted: self.is_aborted,
            phase: self.phase,
            aborted_tool_ids: texts(self.aborted_tool_ids@),
            queued_messages: queue_view(self.queued_messages@),
        }
    }
}

/// The snapshot of an abstract stream state.
pub open spec fn info_of(s: LifecycleView) -> StreamStateInfoView {
    match s {
        LifecycleView::Running { phase, .. } => StreamStateInfoView {
            is_running: true,
            is_paused: false,
            is_aborted: false,
            phase: Some(phase),
            aborted_tool_ids: Seq::empty(),
            queued_messages: Seq::empty(),
        },
        LifecycleView::Paused { phase, queue, .. } => StreamStateInfoView {
            is_running: false,
            is_paused: true,
            is_aborted: false,
            phase: Some(phase),
            aborted_tool_ids: Seq::empty(),
            queued_messages: queue,
        },
        LifecycleView::Aborted { aborted, queue, .. } => StreamStateInfoView {
            is_running: false,
            is_paused: false,
            is_aborted: true,
            phase: None,
            aborted_tool_ids: aborted,
            queued_messages: queue,
        },
        LifecycleView::Idle => StreamStateInfoView {
            is_running: false,
            is_paused: false,
            is_aborted: false,
            phase: None,
            aborted_tool_ids: Seq::empty(),
            queued_messages: Seq::empty(),
        },
    }
}

/// Copies a list of strings, keeping every text.
fn clone_strings(v: &Vec<String>) -> (r: Vec<String>)
    ensures
        texts(r@) == texts(v@),
{
    let mut r: Vec<String> = Vec::new();
    let mut i: usize = 0;
    while i < v.len()
        invariant
            i <= v.len(),
            texts(r@) == texts(v@.take(i as int)),
        decreases v.len() - i,
    {
        let c = v[i].clone();
        let ghost prev = r@;
        r.push(c);
        assert(texts(v@.take(i + 1)) =~= texts(v@.take(i as int)).push(v@[i as int]@));
        assert(texts(r@) =~= texts(prev).push(c@));
        i += 1;
    }
    assert(v@.take(v@.len() as int) =~= v@);
    r
}

impl StreamStateInfo {
    /// The snapshot of a stream state.
    pub fn from_state(state: &StreamState) -> (info: StreamStateInfo)
        ensures
            info@ == info_of(state@),
    {
        match state {
            StreamState::Running { phase, .. } => {
                let info = StreamStateInfo {
                    is_running: true,
                    is_paused: false,
                    is_aborted: false,
                    phase: Some(*phase),
                    aborted_tool_ids: Vec::new(),
                    queued_messages: Vec::new(),
                };
                assert(info@.aborted_tool_ids =~= Seq::<Seq<char>>::empty());
                assert(info@.queued_messages =~= Seq::<QueuedMessageView>::empty());
                info
            },
            StreamState::Paused { phase, message_queue, .. } => {
                let info = StreamStateInfo {
                    is_running: false,
                    is_paused: true,
                    is_aborted: false,
                    phase: Some(*phase),
                    aborted_tool_ids: Vec::new(),
                    queued_messages: clone_messages(&message_queue.messages),
                };
                assert(info@.aborted_tool_ids =~= Seq::<Seq<char>>::empty());
                info
            },
            StreamState::Aborted { aborted_tool_ids, message_queue, .. } => {
                StreamStateInfo {
                    is_running: false,
                    is_paused: false,
                    is_aborted: true,
                    phase: None,
                    aborted_tool_ids: clone_strings(aborted_tool_ids),
                    queued_messages: clone_messages(&message_queue.messages),
                }
            },
        }
    }
}

} // verus!
