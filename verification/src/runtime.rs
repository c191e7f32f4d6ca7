//! Declarations of the runtime types that streams carry (cancellation tokens
//! and pause notifiers), the calls the library makes on them, and the log of
//! what those calls signalled.
use vstd::prelude::*;

verus! {

/// A cancellation token of `tokio_util`, carried through the stream states.
#[verifier::external_type_specification]
#[verifier::external_body]
pub struct ExCancellationToken(tokio_util::sync::CancellationToken);

/// A notifier of `tokio`, used to wake a paused stream.
#[verifier::external_type_specification]
#[verifier::external_body]
pub struct ExNotify(tokio::sync::Notify);

/// `CancellationToken::new`: a fresh token that is not cancelled. Nothing is
/// stated of the value: Verus sees the token as opaque.
#[verifier::external_body]
pub(crate) fn new_cancel_token() -> (t: tokio_util::sync::CancellationToken) {
    tokio_util::sync::CancellationToken::new()
}

/// What the library has signalled to the runtime: the cancellation tokens it
/// has cancelled and the pause notifiers it has woken, in order. It holds no
/// data at run time; only `cancel_token` and `notify_one` add to it.
pub struct SignalLog {
    cancelled: Ghost<Set<tokio_util::sync::CancellationToken>>,
    woken: Ghost<Seq<std::sync::Arc<tokio::sync::Notify>>>,
}

impl SignalLog {
    /// The tokens cancelled so far.
    pub closed spec fn cancelled(&self) -> Set<tokio_util::sync::CancellationToken> {
        self.cancelled@
    }

    /// The notifiers woken so far, in order.
    pub closed spec fn woken(&self) -> Seq<std::sync::Arc<tokio::sync::Notify>> {
        self.woken@
    }

    /// Nothing signalled yet.
    pub fn new() -> (r: Self)
        ensures
            r.cancelled() == Set::<tokio_util::sync::CancellationToken>::empty(),
            r.woken() == Seq::<std::sync::Arc<tokio::sync::Notify>>::empty(),
    {
        SignalLog { cancelled: Ghost(Set::empty()), woken: Ghost(Seq::empty()) }
    }
}

/// `CancellationToken::cancel`: cancels the token; it and every clone of it
/// report cancelled from then on. The log records the token among the
/// cancelled ones and nothing else.
#[verifier::external_body]
pub(crate) fn cancel_token(t: &tokio_util::sync::CancellationToken, log: &mut SignalLog)
    ensures
        final(log).cancelled() == old(log).cancelled().insert(*t),
        final(log).woken() == old(log).woken(),
{
    t.cancel();
}

/// `Arc::new(Notify::new())`: a fresh notifier with no stored permit.
#[verifier::external_body]
pub(crate) fn new_notify() -> (n: std::sync::Arc<tokio::sync::Notify>) {
    std::sync::Arc::new(tokio::sync::Notify::new())
}

/// `Notify::notify_one`: wakes one waiter of the notifier, or stores a permit
/// for the next one. The log records the notifier as woken, after those woken
/// before, and nothing else.
#[verifier::external_body]
pub(crate) fn notify_one(n: &std::sync::Arc<tokio::sync::Notify>, log: &mut SignalLog)
    ensures
        final(log).woken() == old(log).woken().push(*n),
        final(log).cancelled() == old(log).cancelled(),
{
    n.notify_one();
}

} // verus!

verus! {

/// `CancellationToken::clone`: another handle on the same token. A token is a
/// shared pointer to one cancellation node and its clone points at that node
/// too (the crate's own `PartialEq` compares exactly that pointer), so the
/// handle is stated equal to the token it was cloned from.
#[verifier::external_body]
pub(crate) fn clone_token(t: &tokio_util::sync::CancellationToken) -> (r: tokio_util::sync::CancellationToken)
    ensures
        r == *t,
{
    t.clone()
}

/// `Arc::clone` of a notifier: another handle on the same notifier.
#[verifier::external_body]
pub(crate) fn clone_notify(n: &std::sync::Arc<tokio::sync::Notify>) -> (r: std::sync::Arc<tokio::sync::Notify>)
    ensures
        r == *n,
{
    n.clone()
}

} // verus!
