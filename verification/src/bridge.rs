//! The async bridge: a one-shot adapter that turns a blocking operation into a
//! value obtainable through a cooperative suspension point. On its first
//! activation it submits the operation to the pool and suspends; the worker
//! writes the outcome into the result slot and fires the wake signal; on a
//! later activation the bridge reads the slot and completes with the value or
//! with a request-level failure.

use vstd::prelude::*;
use crate::errors::BridgeError;
use crate::headers::Headers;
use crate::pool::Pool;
use crate::slot::{slot_new, slot_send, slot_try_recv, SlotRead};

verus! {

/// The three states of a bridge's life: no task submitted yet, task submitted
/// and the slot attached, and completed (terminal).
pub enum BridgeState {
    NotStarted,
    Started,
    Completed,
}

/// What one activation of a bridge reports to its caller.
pub enum BridgePoll {
    /// Not ready yet; the caller suspends until the wake signal fires.
    Pending,
    /// The blocking operation produced this value; the bridge is complete.
    Ready(Headers),
    /// This request failed; the bridge is complete.
    Failed(BridgeError),
}

/// The state a bridge in state `s` moves to when an activation observes the
/// slot reading `e`. The first activation never reads the slot; once
/// completed, a bridge never leaves that state.
pub open spec fn next_state(s: BridgeState, e: SlotRead) -> BridgeState {
    match s {
        BridgeState::NotStarted => BridgeState::Started,
        BridgeState::Started => match e {
            SlotRead::Empty => BridgeState::Started,
            SlotRead::Value(_) => BridgeState::Completed,
            SlotRead::Broken => BridgeState::Completed,
        },
        BridgeState::Completed => BridgeState::Completed,
    }
}

/// Whether an activation in state `s` submits the blocking task to the pool:
/// only the very first activation does.
pub open spec fn submits(s: BridgeState) -> bool {
    s is NotStarted
}

/// What an activation in state `s` reports when it observes the slot reading
/// `e`: a value exactly when the slot delivered a successful outcome, a
/// failure when the operation failed or the slot broke, and `Pending`
/// otherwise.
pub open spec fn poll_report(s: BridgeState, e: SlotRead) -> BridgePoll {
    match s {
        BridgeState::NotStarted => BridgePoll::Pending,
        BridgeState::Started => match e {
            SlotRead::Empty => BridgePoll::Pending,
            SlotRead::Value(out) => match out {
                Ok(h) => BridgePoll::Ready(h),
                Err(m) => BridgePoll::Failed(BridgeError::UpstreamGenerationFailure(m)),
            },
            SlotRead::Broken => BridgePoll::Failed(BridgeError::ResultChannelBroken),
        },
        BridgeState::Completed => BridgePoll::Pending,
    }
}

/// A per-request, one-shot bridge bound to a shared pool. It is consumed by
/// the single activation sequence of one request: once it completes, its
/// caller must not activate it again.
pub struct Bridge {
    pool: Pool,
    slot: Option<crossbeam_channel::Receiver<Result<Headers, String>>>,
    done: bool,
}

/// The body a worker thread runs for one bridge: perform the blocking
/// operation, write its outcome into the producing half of the result slot,
/// then fire the wake signal. The write always precedes the wake, and each of
/// the three steps happens exactly once.
fn run_submitted_task<F, W>(
    work: F,
    tx: crossbeam_channel::Sender<Result<Headers, String>>,
    wake: W,
) where
    F: FnOnce() -> Result<Headers, String>,
    W: FnOnce(),

    requires
        call_requires(work, ()),
        call_requires(wake, ()),
{
    let out = work();
    let _ = slot_send(&tx, out);
    wake();
}

impl Bridge {
    /// Where this bridge stands in its life cycle.
    pub closed spec fn state(self) -> BridgeState {
        if self.done {
            BridgeState::Completed
        } else if self.slot is Some {
            BridgeState::Started
        } else {
            BridgeState::NotStarted
        }
    }

    /// A bridge is well formed when its pool is.
    pub closed spec fn wf(self) -> bool {
        self.pool.wf()
    }

    /// A fresh bridge bound to `pool`: nothing submitted yet.
    pub fn new(pool: &Pool) -> (b: Bridge)
        requires
            pool.wf(),
        ensures
            b.wf(),
            b.state() is NotStarted,
    {
        Bridge { pool: pool.clone(), slot: None, done: false }
    }

    /// Whether this bridge has completed and must not be activated again.
    pub fn is_completed(&self) -> (b: bool)
        ensures
            b == (self.state() is Completed),
    {
        self.done
    }

    /// Whether this bridge has submitted its task and is waiting on the slot.
    pub fn is_started(&self) -> (b: bool)
        ensures
            b == (self.state() is Started),
    {
        !self.done && self.slot.is_some()
    }

    /// Moves a started bridge by one slot reading: exactly the transition
    /// `next_state` names, reporting exactly what `poll_report` names, for
    /// every possible reading.
    fn absorb(&mut self, read: SlotRead) -> (r: BridgePoll)
        requires
            old(self).state() is Started,
        ensures
            final(self).state() == next_state(old(self).state(), read),
            r == poll_report(old(self).state(), read),
            final(self).wf() == old(self).wf(),
    {
        match read {
            SlotRead::Empty => BridgePoll::Pending,
            SlotRead::Value(out) => {
                self.done = true;
                match out {
                    Ok(h) => BridgePoll::Ready(h),
                    Err(m) => BridgePoll::Failed(BridgeError::UpstreamGenerationFailure(m)),
                }
            },
            SlotRead::Broken => {
                self.done = true;
                BridgePoll::Failed(BridgeError::ResultChannelBroken)
            },
        }
    }

    /// One activation of the bridge.
    ///
    /// On the first activation it creates the result slot, submits to the pool
    /// a task that runs `work`, writes the outcome into the slot and fires
    /// `wake`, and reports `Pending` — the suspension point. On a later
    /// activation it reads the slot without blocking: a delivered outcome
    /// completes the bridge with the value or with the request's failure; an
    /// empty slot (a spurious re-check before the wake) reports `Pending`
    /// again; a broken slot completes the bridge with
    /// `ResultChannelBroken` rather than suspending forever.
    ///
    /// `work` and `wake` are captured only by the first activation; later
    /// activations drop them unused.
    pub fn poll<F, W>(&mut self, work: F, wake: W) -> (r: BridgePoll) where
        F: FnOnce() -> Result<Headers, String> + Send + 'static,
        W: FnOnce() + Send + 'static,

        requires
            old(self).wf(),
            !(old(self).state() is Completed),
            call_requires(work, ()),
            call_requires(wake, ()),
        ensures
            final(self).wf(),
            old(self).state() is NotStarted ==> final(self).state() == next_state(
                old(self).state(),
                SlotRead::Empty,
            ) && r == poll_report(old(self).state(), SlotRead::Empty) && submits(
                old(self).state(),
            ),
            old(self).state() is Started ==> exists|e: SlotRead|
                final(self).state() == next_state(old(self).state(), e) && r == poll_report(
                    old(self).state(),
                    e,
                ) && !submits(old(self).state()),
            r is Pending <==> final(self).state() is Started,
            !(r is Pending) <==> final(self).state() is Completed,
            r matches BridgePoll::Failed(err) ==> !(err is PoolClosed),
    {
        match &self.slot {
            Some(rx) => {
                let read = slot_try_recv(rx);
                let ghost e = read;
                let report = self.absorb(read);
                proof {
                    assert(self.state() == next_state(old(self).state(), e));
                    assert(report == poll_report(old(self).state(), e));
                }
                report
            },
            None => {
                let (tx, rx) = slot_new();
                self.slot = Some(rx);
                let task = (move ||
                    requires
                        call_requires(work, ()),
                        call_requires(wake, ()),
                    {
                        run_submitted_task(work, tx, wake);
                    });
                let _ = self.pool.submit(task);
                BridgePoll::Pending
            },
        }
    }
}

/// The state a bridge in state `s` reaches after activations that observe the
/// slot readings `es`, one reading per activation.
pub open spec fn run_bridge(s: BridgeState, es: Seq<SlotRead>) -> BridgeState
    decreases es.len(),
{
    if es.len() == 0 {
        s
    } else {
        run_bridge(next_state(s, es[0]), es.skip(1))
    }
}

/// How many of the activations that observe `es`, starting at `s`, submit the
/// task to the pool.
pub open spec fn submit_count(s: BridgeState, es: Seq<SlotRead>) -> int
    decreases es.len(),
{
    if es.len() == 0 {
        0
    } else {
        (if submits(s) {
            1int
        } else {
            0int
        }) + submit_count(next_state(s, es[0]), es.skip(1))
    }
}

/// From any state other than the initial one, no later activation submits.
proof fn lemma_never_submits_again(s: BridgeState, es: Seq<SlotRead>)
    requires
        !(s is NotStarted),
    ensures
        submit_count(s, es) == 0,
    decreases es.len(),
{
    if es.len() > 0 {
        lemma_never_submits_again(next_state(s, es[0]), es.skip(1));
    }
}

/// Law: across the whole life of one bridge — any number of activations,
/// whatever the slot reports to each — the blocking task is submitted to the
/// pool exactly once: by the first activation and never again.
pub proof fn lemma_submits_exactly_once(es: Seq<SlotRead>)
    requires
        es.len() >= 1,
    ensures
        submit_count(BridgeState::NotStarted, es) == 1,
{
    lemma_never_submits_again(next_state(BridgeState::NotStarted, es[0]), es.skip(1));
}

/// Law: an activation reports a value only when the slot has actually
/// delivered that very value — never before the worker's write to the slot has
/// completed, and never a value other than the one written.
pub proof fn lemma_value_only_from_slot(s: BridgeState, e: SlotRead, h: Headers)
    requires
        poll_report(s, e) == BridgePoll::Ready(h),
    ensures
        s is Started,
        e == SlotRead::Value(Ok::<Headers, String>(h)),
{
}

/// Law: completion is terminal. Once a bridge has completed, no sequence of
/// further activations moves it anywhere else, so the one value it reported
/// can never be followed by another.
pub proof fn lemma_completed_is_terminal(es: Seq<SlotRead>)
    ensures
        run_bridge(BridgeState::Completed, es) is Completed,
    decreases es.len(),
{
    if es.len() > 0 {
        lemma_completed_is_terminal(es.skip(1));
    }
}

} // verus!
