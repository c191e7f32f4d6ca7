//! The decisions of a WebSocket session with the frontend: whether the
//! frontend is still there, what each incoming frame leads to, and how a
//! scenario run is reported back.
use crate::chat_log::push_joined;
use crate::projects::{join, texts_of};
use crate::scenario::{ExecuteError, ExecuteOutput};
use vstd::prelude::*;

verus! {

/// Seconds between two pings to the frontend.
pub const PING_INTERVAL_SECS: u64 = 2;

/// Milliseconds without a pong after which the frontend counts as gone.
pub const PONG_TIMEOUT_MILLIS: u64 = 5000;

/// Is the frontend alive after a ping tick, given how long ago its last pong
/// came? It is gone once that is longer than the timeout; otherwise the tick
/// changes nothing.
pub fn alive_after_tick(alive: bool, millis_since_pong: u64) -> (b: bool)
    ensures
        b == (alive && millis_since_pong <= PONG_TIMEOUT_MILLIS),
{
    if millis_since_pong > PONG_TIMEOUT_MILLIS {
        false
    } else {
        alive
    }
}

/// A frame received from the frontend.
#[derive(Debug)]
pub enum Incoming {
    Text(String),
    Pong,
    Close,
    Ended,
    Failed,
    Other,
}

/// What the session does with a frame.
#[derive(Debug, PartialEq, Eq)]
pub enum SessionAction {
    /// Handle the request and send the response.
    Respond(String),
    /// The frontend answered a ping: it is alive.
    MarkAlive,
    /// The frontend left: end the session.
    Stop,
    /// The connection broke: end the session with the error.
    Fail,
    /// Nothing to do.
    Ignore,
}

/// What the session does with a frame: requests are answered, a pong marks
/// the frontend alive, a close or the end of the stream ends the session, an
/// error fails it, anything else is ignored.
pub fn on_incoming(frame: Incoming) -> (a: SessionAction)
    ensures
        match frame {
            Incoming::Text(t) => a == SessionAction::Respond(t),
            Incoming::Pong => a == SessionAction::MarkAlive,
            Incoming::Close => a == SessionAction::Stop,
            Incoming::Ended => a == SessionAction::Stop,
            Incoming::Failed => a == SessionAction::Fail,
            Incoming::Other => a == SessionAction::Ignore,
        },
{
    match frame {
        Incoming::Text(t) => SessionAction::Respond(t),
        Incoming::Pong => SessionAction::MarkAlive,
        Incoming::Close => SessionAction::Stop,
        Incoming::Ended => SessionAction::Stop,
        Incoming::Failed => SessionAction::Fail,
        Incoming::Other => SessionAction::Ignore,
    }
}

/// The names of the models that are not aliases, in the given order.
pub open spec fn model_choices(models: Seq<(String, bool)>) -> Seq<Seq<char>>
    decreases models.len(),
{
    if models.len() == 0 {
        Seq::empty()
    } else {
        let rest = model_choices(models.drop_last());
        if models.last().1 {
            rest
        } else {
            rest.push(models.last().0@)
        }
    }
}

/// The models a user can choose from (each given with whether it is an
/// alias): those that are not aliases, in order.
pub fn selectable_models(models: &Vec<(String, bool)>) -> (r: Vec<String>)
    ensures
        texts_of(r@) == model_choices(models@),
{
    let mut r: Vec<String> = Vec::new();
    let mut i: usize = 0;
    while i < models.len()
        invariant
            i <= models@.len(),
            texts_of(r@) == model_choices(models@.take(i as int)),
        decreases models@.len() - i,
    {
        let ghost before = r@;
        assert(models@.take(i + 1).drop_last() =~= models@.take(i as int));
        if !models[i].1 {
            r.push(models[i].0.clone());
            assert(texts_of(r@) =~= texts_of(before).push(models@[i as int].0@));
        }
        i += 1;
    }
    assert(models@.take(models@.len() as int) =~= models@);
    r
}

/// How a scenario run ended, as the run list shows it.
#[derive(Debug, Clone, Copy, PartialEq, Eq, Structural)]
pub enum RunStatus {
    Success,
    Aborted,
    Error,
}

/// The status of a run: aborted runs are told apart from other failures.
pub fn run_status(result: &Result<ExecuteOutput, ExecuteError>) -> (s: RunStatus)
    ensures
        s == match result {
            Ok(_) => RunStatus::Success,
            Err(ExecuteError::Aborted) => RunStatus::Aborted,
            Err(_) => RunStatus::Error,
        },
{
    match result {
        Ok(_) => RunStatus::Success,
        Err(ExecuteError::Aborted) => RunStatus::Aborted,
        Err(_) => RunStatus::Error,
    }
}

/// What a successful run reports as its output: the texts of its output
/// steps, one per line.
pub fn run_output_text(output: &ExecuteOutput) -> (r: String)
    ensures
        r@ == join(texts_of(output.outputs@), "\n"@),
{
    let mut r = String::new();
    push_joined(&mut r, output.outputs.as_slice(), "\n");
    r
}

} // verus!
