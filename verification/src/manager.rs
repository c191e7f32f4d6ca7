//! The chat manager's table of active streams: which chats have a stream,
//! and whether it runs, is paused or was aborted.
use crate::error::ChatError;
use crate::event::ChatEvent;
use crate::runtime::{cancel_token, clone_notify, clone_token, new_cancel_token, new_notify, notify_one, SignalLog};
use crate::state::{
    ExecutionPhase, MessageQueue, QueuedMessage, QueuedMessageView, StreamState, StreamStateInfo,
    StreamStateInfoView, info_of, queue_view,
};
use crate::stream_fsm::{queue_of, texts, token_of, with_queue, LifecycleView};
use std::collections::HashMap;
use std::sync::Arc;
use tokio::sync::Notify;
use tokio_util::sync::CancellationToken;
use vstd::prelude::*;

verus! {

broadcast use vstd::std_specs::hash::group_hash_axioms;

/// What resuming a stream hands back.
#[derive(Debug)]
pub struct ResumeInfo {
    pub previous_phase: ExecutionPhase,
    pub message_queue: MessageQueue,
}

/// What happens to a message that is offered to a chat's queue.
pub enum QueueOutcome {
    Queued,
    NoStream,
    NotQueueable,
}

/// Pausing: a running stream becomes paused with an empty queue.
pub open spec fn streams_pause(m: Map<i64, LifecycleView>, chat: i64) -> (Map<i64, LifecycleView>, bool) {
    if m.contains_key(chat) && m[chat] is Running {
        let s = m[chat];
        (m.insert(chat, LifecycleView::Paused {
            token: s->Running_token,
            notify: s->Running_notify,
            phase: s->Running_phase,
            queue: Seq::empty(),
        }), true)
    } else {
        (m, false)
    }
}

/// Aborting: any registered stream becomes aborted with the given tool ids,
/// keeping its token and dropping its queue.
pub open spec fn streams_abort(m: Map<i64, LifecycleView>, chat: i64, ids: Seq<Seq<char>>) -> (Map<i64, LifecycleView>, bool) {
    if m.contains_key(chat) {
        let t = crate::stream_fsm::token_of(m[chat]).unwrap();
        (m.insert(chat, LifecycleView::Aborted { token: t, aborted: ids, queue: Seq::empty() }), true)
    } else {
        (m, false)
    }
}

/// Resuming: a paused stream runs again with its notifier; an aborted one runs
/// again with the fresh notifier `fresh`. Both restart in the AI-call phase and
/// hand back the phase they were in and their queue.
pub open spec fn streams_resume(m: Map<i64, LifecycleView>, chat: i64, fresh: Arc<Notify>) -> (Map<i64, LifecycleView>, Option<(ExecutionPhase, Seq<QueuedMessageView>)>) {
    if !m.contains_key(chat) {
        (m, None)
    } else {
        match m[chat] {
            LifecycleView::Paused { token, notify, phase, queue } => (
                m.insert(chat, LifecycleView::Running { token, notify, phase: ExecutionPhase::AiCall }),
                Some((phase, queue)),
            ),
            LifecycleView::Aborted { token, queue, .. } => (
                m.insert(chat, LifecycleView::Running { token, notify: fresh, phase: ExecutionPhase::AiCall }),
                Some((ExecutionPhase::AiCall, queue)),
            ),
            _ => (m, None),
        }
    }
}

/// Queuing `msg`: accepted while paused or aborted.
pub open spec fn streams_queue(m: Map<i64, LifecycleView>, chat: i64, msg: QueuedMessageView) -> (Map<i64, LifecycleView>, QueueOutcome) {
    if !m.contains_key(chat) {
        (m, QueueOutcome::NoStream)
    } else if m[chat] is Paused || m[chat] is Aborted {
        (m.insert(chat, with_queue(m[chat], queue_of(m[chat]).push(msg))), QueueOutcome::Queued)
    } else {
        (m, QueueOutcome::NotQueueable)
    }
}

/// Taking the queued messages out: `None` when there is no stream.
pub open spec fn streams_drain(m: Map<i64, LifecycleView>, chat: i64) -> (Map<i64, LifecycleView>, Option<Seq<QueuedMessageView>>) {
    if !m.contains_key(chat) {
        (m, None)
    } else if m[chat] is Paused || m[chat] is Aborted {
        (m.insert(chat, with_queue(m[chat], Seq::empty())), Some(queue_of(m[chat])))
    } else {
        (m, Some(Seq::empty()))
    }
}

/// Setting the phase of a running stream.
pub open spec fn streams_set_phase(m: Map<i64, LifecycleView>, chat: i64, phase: ExecutionPhase) -> Map<i64, LifecycleView> {
    if m.contains_key(chat) && m[chat] is Running {
        m.insert(chat, LifecycleView::Running {
            token: m[chat]->Running_token,
            notify: m[chat]->Running_notify,
            phase,
        })
    } else {
        m
    }
}

/// The (content, model) pairs of a sequence of queued messages.
pub open spec fn content_model_pairs(q: Seq<QueuedMessageView>) -> Seq<(Seq<char>, Seq<char>)> {
    q.map_values(|m: QueuedMessageView| (m.content, m.model))
}

/// The texts of a list of string pairs.
pub open spec fn pair_texts(v: Seq<(String, String)>) -> Seq<(Seq<char>, Seq<char>)> {
    v.map_values(|p: (String, String)| (p.0@, p.1@))
}

/// Pausing a running stream and then resuming it gives a running stream with
/// the same token and notifier, back in the AI-call phase; the resume reports
/// the phase the stream was paused in and an empty queue.
pub proof fn law_pause_then_resume(m: Map<i64, LifecycleView>, chat: i64, fresh: Arc<Notify>)
    requires
        m.contains_key(chat),
        m[chat] is Running,
    ensures
        streams_pause(m, chat).1,
        streams_resume(streams_pause(m, chat).0, chat, fresh) == (
            m.insert(chat, running(m[chat]->Running_token, m[chat]->Running_notify)),
            Some((m[chat]->Running_phase, Seq::<QueuedMessageView>::empty())),
        ),
{
    assert(streams_pause(m, chat).0.insert(chat, running(m[chat]->Running_token, m[chat]->Running_notify))
        =~= m.insert(chat, running(m[chat]->Running_token, m[chat]->Running_notify)));
}

/// A running state in the AI-call phase.
pub open spec fn running(token: CancellationToken, notify: Arc<Notify>) -> LifecycleView {
    LifecycleView::Running { token, notify, phase: ExecutionPhase::AiCall }
}

/// A message queued while a stream is paused or aborted comes back, after the
/// ones queued before it, when the stream is resumed.
pub proof fn law_queued_messages_return_on_resume(m: Map<i64, LifecycleView>, chat: i64, msg: QueuedMessageView, fresh: Arc<Notify>)
    requires
        m.contains_key(chat),
        m[chat] is Paused || m[chat] is Aborted,
    ensures
        streams_queue(m, chat, msg).1 is Queued,
        streams_resume(streams_queue(m, chat, msg).0, chat, fresh).1 matches Some((_, q)) && q == queue_of(m[chat]).push(msg),
{
}

/// Messages queued are drained in arrival order, and draining empties the queue.
pub proof fn law_queue_then_drain(m: Map<i64, LifecycleView>, chat: i64, msg: QueuedMessageView)
    requires
        m.contains_key(chat),
        m[chat] is Paused || m[chat] is Aborted,
    ensures
        streams_drain(streams_queue(m, chat, msg).0, chat).1 == Some(queue_of(m[chat]).push(msg)),
        queue_of(streams_drain(streams_queue(m, chat, msg).0, chat).0[chat]) == Seq::<QueuedMessageView>::empty(),
{
}

/// A running stream refuses queued messages, and a chat without a stream has
/// nowhere to queue them; neither changes anything.
pub proof fn law_queue_refused(m: Map<i64, LifecycleView>, chat: i64, msg: QueuedMessageView)
    ensures
        !m.contains_key(chat) ==> streams_queue(m, chat, msg) == (m, QueueOutcome::NoStream),
        m.contains_key(chat) && (m[chat] is Running) ==> streams_queue(m, chat, msg) == (m, QueueOutcome::NotQueueable),
{
}

/// Aborting then resuming keeps the stream's token and restarts it in the
/// AI-call phase with an empty queue.
pub proof fn law_abort_then_resume(m: Map<i64, LifecycleView>, chat: i64, ids: Seq<Seq<char>>, fresh: Arc<Notify>)
    requires
        m.contains_key(chat),
    ensures
        streams_abort(m, chat, ids).1,
        streams_resume(streams_abort(m, chat, ids).0, chat, fresh) == (
            m.insert(chat, running(crate::stream_fsm::token_of(m[chat]).unwrap(), fresh)),
            Some((ExecutionPhase::AiCall, Seq::<QueuedMessageView>::empty())),
        ),
{
    assert(streams_abort(m, chat, ids).0.insert(chat, running(crate::stream_fsm::token_of(m[chat]).unwrap(), fresh))
        =~= m.insert(chat, running(crate::stream_fsm::token_of(m[chat]).unwrap(), fresh)));
}

/// Every operation on one chat's stream leaves every other chat's stream as it
/// was.
pub proof fn law_other_chats_untouched(
    m: Map<i64, LifecycleView>,
    chat: i64,
    other: i64,
    ids: Seq<Seq<char>>,
    msg: QueuedMessageView,
    phase: ExecutionPhase,
    fresh: Arc<Notify>,
)
    requires
        other != chat,
    ensures
        same_entry(streams_pause(m, chat).0, m, other),
        same_entry(streams_abort(m, chat, ids).0, m, other),
        same_entry(streams_resume(m, chat, fresh).0, m, other),
        same_entry(streams_queue(m, chat, msg).0, m, other),
        same_entry(streams_drain(m, chat).0, m, other),
        same_entry(streams_set_phase(m, chat, phase), m, other),
{
}

/// `a` and `b` agree on key `k`.
pub open spec fn same_entry(a: Map<i64, LifecycleView>, b: Map<i64, LifecycleView>, k: i64) -> bool {
    a.contains_key(k) == b.contains_key(k) && (b.contains_key(k) ==> a[k] == b[k])
}

/// The token of the chat's stream, as a set: empty when the chat has none.
pub open spec fn stream_token(m: Map<i64, LifecycleView>, chat: i64) -> Set<CancellationToken> {
    if m.contains_key(chat) {
        set![token_of(m[chat]).unwrap()]
    } else {
        Set::empty()
    }
}

/// The tokens of every stream.
pub open spec fn all_stream_tokens(m: Map<i64, LifecycleView>) -> Set<CancellationToken> {
    m.values().map(|s: LifecycleView| token_of(s).unwrap())
}

/// The notifier that resuming wakes: that of a paused stream, and none
/// otherwise.
pub open spec fn resume_wakes(m: Map<i64, LifecycleView>, chat: i64) -> Seq<Arc<Notify>> {
    if m.contains_key(chat) && m[chat] is Paused {
        seq![m[chat]->Paused_notify]
    } else {
        Seq::empty()
    }
}

/// Registering a stream and then aborting the chat cancels the very token that
/// registering handed out.
pub proof fn law_abort_cancels_registered_token(
    m: Map<i64, LifecycleView>,
    chat: i64,
    token: CancellationToken,
    notify: Arc<Notify>,
)
    ensures
        stream_token(m.insert(chat, running(token, notify)), chat) == set![token],
{
}

/// Resuming a chat that was paused after registering wakes the notifier that
/// registering handed out.
pub proof fn law_resume_wakes_registered_notifier(
    m: Map<i64, LifecycleView>,
    chat: i64,
    token: CancellationToken,
    notify: Arc<Notify>,
)
    ensures
        resume_wakes(streams_pause(m.insert(chat, running(token, notify)), chat).0, chat) == seq![notify],
{
}

/// The active streams, by chat id, and the log of the tokens cancelled and
/// notifiers woken on them.
pub struct StreamRegistry {
    active: HashMap<i64, StreamState>,
    signals: SignalLog,
}

impl StreamRegistry {
    /// The abstract state of every active stream, by chat id.
    pub closed spec fn streams(&self) -> Map<i64, LifecycleView> {
        self.active@.map_values(|s: StreamState| s@)
    }

    /// The tokens this registry has cancelled.
    pub closed spec fn cancelled(&self) -> Set<CancellationToken> {
        self.signals.cancelled()
    }

    /// The notifiers this registry has woken, in order.
    pub closed spec fn woken(&self) -> Seq<Arc<Notify>> {
        self.signals.woken()
    }

    /// Did this call leave the log of signals as it was?
    pub open spec fn same_signals(&self, other: &Self) -> bool {
        self.cancelled() == other.cancelled() && self.woken() == other.woken()
    }

    /// No active streams, nothing cancelled or woken.
    pub fn new() -> (r: Self)
        ensures
            r.streams() == Map::<i64, LifecycleView>::empty(),
            r.cancelled() == Set::<CancellationToken>::empty(),
            r.woken() == Seq::<Arc<Notify>>::empty(),
    {
        let r = StreamRegistry { active: HashMap::new(), signals: SignalLog::new() };
        assert(r.streams() =~= Map::<i64, LifecycleView>::empty());
        r
    }

    fn put(&mut self, chat: i64, s: StreamState)
        ensures
            final(self).streams() == old(self).streams().insert(chat, s@),
            final(self).signals == old(self).signals,
    {
        let ghost m = self.active@;
        let ghost v = s@;
        self.active.insert(chat, s);
        assert(self.streams() =~= old(self).streams().insert(chat, v));
    }

    fn take(&mut self, chat: i64) -> (r: Option<StreamState>)
        ensures
            final(self).streams() == old(self).streams().remove(chat),
            final(self).signals == old(self).signals,
            match r {
                Some(s) => old(self).streams().contains_key(chat) && s@ == old(self).streams()[chat],
                None => !old(self).streams().contains_key(chat),
            },
    {
        let r = self.active.remove(&chat);
        assert(self.streams() =~= old(self).streams().remove(chat));
        r
    }

    /// Registers a new running stream for the chat, in the AI-call phase, and
    /// returns handles on its token and notifier. A stream the chat already had
    /// is cancelled and replaced.
    pub fn register_stream(&mut self, chat_id: i64) -> (r: (CancellationToken, Arc<Notify>))
        ensures
            final(self).streams() == old(self).streams().insert(
                chat_id,
                LifecycleView::Running { token: r.0, notify: r.1, phase: ExecutionPhase::AiCall },
            ),
            final(self).cancelled() == old(self).cancelled().union(stream_token(old(self).streams(), chat_id)),
            final(self).woken() == old(self).woken(),
    {
        let token = new_cancel_token();
        let notify = new_notify();
        if let Some(existing) = self.take(chat_id) {
            cancel_token(existing.cancel_token(), &mut self.signals);
        }
        assert(self.cancelled() =~= old(self).cancelled().union(stream_token(old(self).streams(), chat_id)));
        let t2 = clone_token(&token);
        let n2 = clone_notify(&notify);
        self.put(chat_id, StreamState::Running { cancel_token: token, pause_notify: notify, phase: ExecutionPhase::AiCall });
        assert(final(self).streams() =~= old(self).streams().insert(
            chat_id,
            LifecycleView::Running { token: t2, notify: n2, phase: ExecutionPhase::AiCall },
        ));
        (t2, n2)
    }

    /// Forgets the chat's stream.
    pub fn unregister_stream(&mut self, chat_id: i64)
        ensures
            final(self).streams() == old(self).streams().remove(chat_id),
            final(self).same_signals(old(self)),
    {
        let _ = self.take(chat_id);
    }

    /// Pauses the chat's stream if it is running; says whether it did.
    pub fn pause_chat(&mut self, chat_id: i64) -> (b: bool)
        ensures
            (final(self).streams(), b) == streams_pause(old(self).streams(), chat_id),
            final(self).same_signals(old(self)),
    {
        match self.take(chat_id) {
            Some(StreamState::Running { cancel_token, pause_notify, phase }) => {
                self.put(
                    chat_id,
                    StreamState::Paused { cancel_token, pause_notify, phase, message_queue: MessageQueue::new() },
                );
                assert(final(self).streams() =~= streams_pause(old(self).streams(), chat_id).0);
                true
            },
            Some(other) => {
                self.put(chat_id, other);
                assert(final(self).streams() =~= old(self).streams());
                false
            },
            None => {
                assert(final(self).streams() =~= old(self).streams());
                false
            },
        }
    }

    /// Aborts the chat's stream: cancels its token and records the aborted
    /// tool calls. Says whether the chat had a stream.
    pub fn abort_chat(&mut self, chat_id: i64, aborted_tool_ids: Vec<String>) -> (b: bool)
        ensures
            (final(self).streams(), b) == streams_abort(old(self).streams(), chat_id, texts(aborted_tool_ids@)),
            final(self).cancelled() == old(self).cancelled().union(stream_token(old(self).streams(), chat_id)),
            final(self).woken() == old(self).woken(),
    {
        match self.take(chat_id) {
            Some(state) => {
                let token = match state {
                    StreamState::Running { cancel_token, .. } => cancel_token,
                    StreamState::Paused { cancel_token, .. } => cancel_token,
                    StreamState::Aborted { cancel_token, .. } => cancel_token,
                };
                cancel_token(&token, &mut self.signals);
                assert(self.cancelled() =~= old(self).cancelled().union(stream_token(old(self).streams(), chat_id)));
                self.put(
                    chat_id,
                    StreamState::Aborted { cancel_token: token, aborted_tool_ids, message_queue: MessageQueue::new() },
                );
                assert(final(self).streams() =~= streams_abort(old(self).streams(), chat_id, texts(aborted_tool_ids@)).0);
                true
            },
            None => {
                assert(final(self).streams() =~= old(self).streams());
                assert(self.cancelled() =~= old(self).cancelled().union(stream_token(old(self).streams(), chat_id)));
                false
            },
        }
    }

    /// Resumes a paused or aborted stream (waking a paused one), handing back
    /// the phase it was in and its queued messages.
    pub fn resume_chat(&mut self, chat_id: i64) -> (r: Option<ResumeInfo>)
        ensures
            exists|fresh: Arc<Notify>| {
                let (m, out) = #[trigger] streams_resume(old(self).streams(), chat_id, fresh);
                &&& final(self).streams() == m
                &&& match out {
                    Some((phase, queue)) => r is Some && r->0.previous_phase == phase && r->0.message_queue@ == queue,
                    None => r is None,
                }
            },
            final(self).woken() == old(self).woken() + resume_wakes(old(self).streams(), chat_id),
            final(self).cancelled() == old(self).cancelled(),
    {
        match self.take(chat_id) {
            Some(StreamState::Paused { cancel_token, pause_notify, phase, message_queue }) => {
                notify_one(&pause_notify, &mut self.signals);
                assert(self.woken() =~= old(self).woken() + resume_wakes(old(self).streams(), chat_id));
                let ghost n = pause_notify;
                self.put(chat_id, StreamState::Running { cancel_token, pause_notify, phase: ExecutionPhase::AiCall });
                let info = ResumeInfo { previous_phase: phase, message_queue };
                assert(final(self).streams() =~= streams_resume(old(self).streams(), chat_id, n).0);
                assert(streams_resume(old(self).streams(), chat_id, n).1 == Some((phase, info.message_queue@)));
                Some(info)
            },
            Some(StreamState::Aborted { cancel_token, message_queue, .. }) => {
                let fresh = new_notify();
                let ghost n = fresh;
                self.put(chat_id, StreamState::Running { cancel_token, pause_notify: fresh, phase: ExecutionPhase::AiCall });
                let info = ResumeInfo { previous_phase: ExecutionPhase::AiCall, message_queue };
                assert(final(self).streams() =~= streams_resume(old(self).streams(), chat_id, n).0);
                Some(info)
            },
            Some(other) => {
                let ghost n = arbitrary::<Arc<Notify>>();
                self.put(chat_id, other);
                assert(final(self).streams() =~= streams_resume(old(self).streams(), chat_id, n).0);
                None
            },
            None => {
                let ghost n = arbitrary::<Arc<Notify>>();
                assert(final(self).streams() =~= streams_resume(old(self).streams(), chat_id, n).0);
                None
            },
        }
    }

    /// Queues a message for a paused or aborted chat, stamped `queued_at`
    /// (milliseconds since the Unix epoch), and gives the `MessageQueued` event
    /// that announces it. A running chat refuses it; a chat without a stream is
    /// not found.
    pub fn queue_message(&mut self, chat_id: i64, content: String, model: String, queued_at: i64) -> (r: Result<ChatEvent, ChatError>)
        ensures
            ({
                let (m, out) = streams_queue(
                    old(self).streams(),
                    chat_id,
                    QueuedMessageView { content: content@, model: model@, queued_at: queued_at as int },
                );
                &&& final(self).streams() == m
                &&& match out {
                    QueueOutcome::Queued => r matches Ok(ChatEvent::MessageQueued { chat_id: c, content: x, model: y })
                        && c == chat_id && x@ == content@ && y@ == model@,
                    QueueOutcome::NoStream => r matches Err(ChatError::ChatNotFound),
                    QueueOutcome::NotQueueable => r matches Err(ChatError::InvalidState(msg)) && msg@ == "Chat is not paused or aborted"@,
                }
            }),
            final(self).same_signals(old(self)),
    {
        let ghost mv = QueuedMessageView { content: content@, model: model@, queued_at: queued_at as int };
        match self.take(chat_id) {
            Some(StreamState::Paused { cancel_token, pause_notify, phase, message_queue }) => {
                let event = ChatEvent::MessageQueued { chat_id, content: content.clone(), model: model.clone() };
                let msg = QueuedMessage { content, model, queued_at };
                assert(msg@ == mv);
                let mut queue = message_queue;
                queue.push(msg);
                self.put(chat_id, StreamState::Paused { cancel_token, pause_notify, phase, message_queue: queue });
                assert(final(self).streams() =~= streams_queue(old(self).streams(), chat_id, mv).0);
                Ok(event)
            },
            Some(StreamState::Aborted { cancel_token, aborted_tool_ids, message_queue }) => {
                let event = ChatEvent::MessageQueued { chat_id, content: content.clone(), model: model.clone() };
                let msg = QueuedMessage { content, model, queued_at };
                assert(msg@ == mv);
                let mut queue = message_queue;
                queue.push(msg);
                self.put(chat_id, StreamState::Aborted { cancel_token, aborted_tool_ids, message_queue: queue });
                assert(final(self).streams() =~= streams_queue(old(self).streams(), chat_id, mv).0);
                Ok(event)
            },
            Some(other) => {
                self.put(chat_id, other);
                assert(final(self).streams() =~= streams_queue(old(self).streams(), chat_id, mv).0);
                let mut msg = String::new();
                crate::text::append_str(&mut msg, "Chat is not paused or aborted");
                assert(msg@ =~= "Chat is not paused or aborted"@);
                Err(ChatError::InvalidState(msg))
            },
            None => {
                assert(final(self).streams() =~= streams_queue(old(self).streams(), chat_id, mv).0);
                Err(ChatError::ChatNotFound)
            },
        }
    }

    /// Takes the queued messages of a paused or aborted chat, oldest first, as
    /// (content, model) pairs; a running chat has none; a chat without a stream
    /// is not found.
    pub fn process_queued_messages(&mut self, chat_id: i64) -> (r: Result<Vec<(String, String)>, ChatError>)
        ensures
            final(self).streams() == streams_drain(old(self).streams(), chat_id).0,
            final(self).same_signals(old(self)),
            match streams_drain(old(self).streams(), chat_id).1 {
                Some(q) => r is Ok && pair_texts(r->Ok_0@) == content_model_pairs(q),
                None => r matches Err(ChatError::ChatNotFound),
            },
    {
        match self.take(chat_id) {
            Some(state) => {
                let ghost sv = state@;
                let (state, drained) = match state {
                    StreamState::Paused { cancel_token, pause_notify, phase, message_queue } => {
                        let mut q = message_queue;
                        let d = q.drain();
                        (StreamState::Paused { cancel_token, pause_notify, phase, message_queue: q }, d)
                    },
                    StreamState::Aborted { cancel_token, aborted_tool_ids, message_queue } => {
                        let mut q = message_queue;
                        let d = q.drain();
                        (StreamState::Aborted { cancel_token, aborted_tool_ids, message_queue: q }, d)
                    },
                    other => (other, Vec::new()),
                };
                assert(queue_view(drained@) == queue_of(sv));
                self.put(chat_id, state);
                assert(final(self).streams() =~= streams_drain(old(self).streams(), chat_id).0);
                let pairs = content_model_list(drained);
                Ok(pairs)
            },
            None => {
                assert(final(self).streams() =~= old(self).streams());
                Err(ChatError::ChatNotFound)
            },
        }
    }

    /// A snapshot of the chat's stream, if it has one.
    pub fn get_stream_state(&self, chat_id: i64) -> (r: Option<StreamStateInfo>)
        ensures
            match r {
                Some(info) => self.streams().contains_key(chat_id) && info@ == info_of(self.streams()[chat_id]),
                None => !self.streams().contains_key(chat_id),
            },
    {
        match self.active.get(&chat_id) {
            Some(state) => Some(StreamStateInfo::from_state(state)),
            None => None,
        }
    }

    /// Has the chat's stream been aborted? (`false` without a stream.)
    pub fn is_aborted(&self, chat_id: i64) -> (b: bool)
        ensures
            b == (self.streams().contains_key(chat_id) && self.streams()[chat_id] is Aborted),
    {
        match self.active.get(&chat_id) {
            Some(state) => state.is_aborted(),
            None => false,
        }
    }

    /// Sets the phase of the chat's stream if it is running.
    pub fn set_execution_phase(&mut self, chat_id: i64, phase: ExecutionPhase)
        ensures
            final(self).streams() == streams_set_phase(old(self).streams(), chat_id, phase),
            final(self).same_signals(old(self)),
    {
        match self.take(chat_id) {
            Some(StreamState::Running { cancel_token, pause_notify, .. }) => {
                self.put(chat_id, StreamState::Running { cancel_token, pause_notify, phase });
                assert(final(self).streams() =~= streams_set_phase(old(self).streams(), chat_id, phase));
            },
            Some(other) => {
                self.put(chat_id, other);
                assert(final(self).streams() =~= old(self).streams());
            },
            None => {
                assert(final(self).streams() =~= old(self).streams());
            },
        }
    }

    /// The notifier of the chat's stream, if it is paused.
    pub fn get_paused_notify(&self, chat_id: i64) -> (r: Option<Arc<Notify>>)
        ensures
            match r {
                Some(n) => self.streams().contains_key(chat_id) && (self.streams()[chat_id] is Paused) && n == self.streams()[chat_id]->Paused_notify,
                None => !(self.streams().contains_key(chat_id) && self.streams()[chat_id] is Paused),
            },
    {
        match self.active.get(&chat_id) {
            Some(StreamState::Paused { pause_notify, .. }) => Some(clone_notify(pause_notify)),
            _ => None,
        }
    }

    /// Cancels the token of every stream and forgets them all.
    pub fn cancel_all(&mut self)
        ensures
            final(self).streams() == Map::<i64, LifecycleView>::empty(),
            final(self).cancelled() == old(self).cancelled().union(all_stream_tokens(old(self).streams())),
            final(self).woken() == old(self).woken(),
    {
        let ghost m0 = self.active@;
        let ghost c0 = self.signals.cancelled();
        let ghost w0 = self.signals.woken();
        let ghost mut seen: Seq<&StreamState> = Seq::empty();
        proof {
            if m0.dom().len() == 0 {
                m0.dom().lemma_len0_is_empty();
                assert(m0.values() =~= Set::<StreamState>::empty());
                assert(seen.unref().to_set() =~= Set::<StreamState>::empty());
            }
        }
        for s in it: self.active.values()
            invariant
                self.active@ == m0,
                it.seq().unref().to_set() == m0.values(),
                it.seq().len() == m0.dom().len(),
                seen == it.seq().take(it.index() as int),
                seen.len() == m0.dom().len() ==> seen.unref().to_set() == m0.values(),
                self.signals.woken() == w0,
                self.signals.cancelled() == c0.union(seen.map_values(|x: &StreamState| token_of(x@).unwrap()).to_set()),
        {
            cancel_token(s.cancel_token(), &mut self.signals);
            let ghost toks = seen.map_values(|x: &StreamState| token_of(x@).unwrap());
            assert(it.seq().take(it.index() + 1) =~= seen.push(s));
            assert(seen.push(s).map_values(|x: &StreamState| token_of(x@).unwrap()) =~= toks.push(token_of(s@).unwrap()));
            proof {
                toks.lemma_push_to_set_commute(token_of(s@).unwrap());
                seen = seen.push(s);
                if seen.len() == m0.dom().len() {
                    assert(it.seq().take(it.seq().len() as int) =~= it.seq());
                }
            }
            assert(self.signals.cancelled() =~= c0.union(seen.map_values(|x: &StreamState| token_of(x@).unwrap()).to_set()));
        }
        proof {
            lemma_tokens_of_values(m0, seen);
        }
        self.active.clear();
        assert(self.streams() =~= Map::<i64, LifecycleView>::empty());
    }
}

/// The tokens of a sequence that holds exactly the values of `m` are the
/// tokens of every stream of `m`.
proof fn lemma_tokens_of_values(m: Map<i64, StreamState>, vals: Seq<&StreamState>)
    requires
        vals.unref().to_set() == m.values(),
    ensures
        vals.map_values(|x: &StreamState| token_of(x@).unwrap()).to_set() == all_stream_tokens(
            m.map_values(|s: StreamState| s@),
        ),
{
    let f = |x: &StreamState| token_of(x@).unwrap();
    let g = |s: LifecycleView| token_of(s).unwrap();
    let views = m.map_values(|s: StreamState| s@);
    let left = vals.map_values(f).to_set();
    let right = all_stream_tokens(views);
    assert forall|t: CancellationToken| left.contains(t) implies right.contains(t) by {
        let j = choose|j: int| 0 <= j < vals.len() && vals.map_values(f)[j] == t;
        assert(vals.unref()[j] == *vals[j]);
        assert(vals.unref().to_set().contains(*vals[j]));
        let k = choose|k: i64| m.contains_key(k) && m[k] == *vals[j];
        assert(views.contains_key(k) && views[k] == vals[j]@);
        assert(views.values().contains(vals[j]@));
        assert(g(vals[j]@) == t);
    }
    assert forall|t: CancellationToken| right.contains(t) implies left.contains(t) by {
        let v = choose|v: LifecycleView| views.values().contains(v) && g(v) == t;
        let k = choose|k: i64| views.contains_key(k) && views[k] == v;
        assert(m.values().contains(m[k]));
        let j = choose|j: int| 0 <= j < vals.unref().len() && vals.unref()[j] == m[k];
        assert(vals.map_values(f)[j] == t);
    }
    assert(left =~= right);
}

/// The (content, model) pairs of queued messages, in order.
fn content_model_list(msgs: Vec<QueuedMessage>) -> (r: Vec<(String, String)>)
    ensures
        pair_texts(r@) == content_model_pairs(queue_view(msgs@)),
{
    let mut r: Vec<(String, String)> = Vec::new();
    let mut i: usize = 0;
    while i < msgs.len()
        invariant
            i <= msgs.len(),
            pair_texts(r@) == content_model_pairs(queue_view(msgs@.take(i as int))),
        decreases msgs.len() - i,
    {
        let c = msgs[i].content.clone();
        let m = msgs[i].model.clone();
        let ghost prev = r@;
        r.push((c, m));
        assert(content_model_pairs(queue_view(msgs@.take(i + 1))) =~= content_model_pairs(
            queue_view(msgs@.take(i as int)),
        ).push((msgs@[i as int].content@, msgs@[i as int].model@)));
        assert(pair_texts(r@) =~= pair_texts(prev).push((c@, m@)));
        i += 1;
    }
    assert(msgs@.take(msgs@.len() as int) =~= msgs@);
    r
}

} // verus!
