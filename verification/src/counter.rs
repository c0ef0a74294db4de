//! The worker actor: owner of a single cancellable background computation
//! slot, serialized so that at most one computation is ever in flight.
//!
//! The real computation is a blocking unit on its own thread: it sleeps
//! through a fixed number of ticks, checks a one-shot cancellation channel
//! at each tick boundary, and on surviving every check delivers the
//! incremented value to the view actor. [`BlockTask`] models that unit
//! together with its channel, holding exactly what the worker's control
//! logic reads of the real task handle: progress, the pending cancellation
//! signal, resolution, and whether an update was delivered. One model tick
//! is one atomic boundary: the sleep, the cancellation check, and (at the
//! last boundary) the delivery.
//!
//! The embedding drives the in-flight computation by calling
//! [`CounterState::tick`] and performs the delivery that a tick reports.

use vstd::prelude::*;
use crate::view::inc_wrap;

verus! {

/// Number of tick boundaries one computation sleeps through before it
/// delivers (the simulated work is this many fixed-duration sleeps).
pub const TICKS: u8 = 10;

/// The worker actor's mailbox message set.
pub enum CounterMessage {
    /// Start a computation that will deliver this value plus one.
    IncrementCounter(u8),
}

/// Model of one spawned computation unit and its one-shot cancellation
/// channel.
///
/// Its protocol states: running (`!finished`), cancelling (`!finished &&
/// cancelled`), resolved (`finished`). A resolved task either delivered its
/// update at its last tick boundary or observed the cancellation signal and
/// delivered nothing; it never runs again.
#[derive(Clone, Copy, Debug)]
pub struct BlockTask {
    /// The counter value the increment request carried.
    pub value: u8,
    /// Tick boundaries the computation has passed.
    pub ticks_done: u8,
    /// The cancellation signal has been sent on the one-shot channel.
    pub cancelled: bool,
    /// The computation has resolved; its handle can be joined without
    /// waiting.
    pub finished: bool,
    /// The computation delivered `UpdateCount` of `value` plus one.
    pub delivered: bool,
}

impl BlockTask {
    /// Well-formedness of the task model: progress never exceeds the tick
    /// budget, an unresolved task still has a boundary (and so a
    /// cancellation check) ahead of it, a delivery happens only at the last
    /// boundary of a task that then resolves, and a task resolves only by
    /// delivering or by observing cancellation.
    pub open spec fn wf(self) -> bool {
        &&& self.ticks_done <= TICKS
        &&& !self.finished ==> self.ticks_done < TICKS
        &&& self.delivered ==> self.finished && self.ticks_done == TICKS
        &&& self.finished ==> self.delivered || self.cancelled
    }

    /// A freshly spawned computation for request value `v`.
    pub open spec fn spawned(v: u8) -> BlockTask {
        BlockTask { value: v, ticks_done: 0, cancelled: false, finished: false, delivered: false }
    }

    /// One tick boundary of a running computation: after the sleep, a
    /// pending cancellation signal resolves the task without a delivery;
    /// otherwise the last boundary delivers the wrapped successor of the
    /// request value and resolves the task; otherwise the task keeps
    /// running.
    pub open spec fn tick_spec(t: BlockTask) -> (BlockTask, Option<u8>)
        recommends
            t.wf(),
            !t.finished,
    {
        if t.cancelled {
            (BlockTask { ticks_done: (t.ticks_done + 1) as u8, finished: true, ..t }, None)
        } else if t.ticks_done + 1 == TICKS {
            (
                BlockTask { ticks_done: TICKS, finished: true, delivered: true, ..t },
                Some(inc_wrap(t.value)),
            )
        } else {
            (BlockTask { ticks_done: (t.ticks_done + 1) as u8, ..t }, None)
        }
    }

    /// The task after the worker's drain resolved it: an already resolved
    /// task is left as it is; a running one has the cancellation signal
    /// sent and observes it at its next boundary, resolving without a
    /// delivery. Draining never delivers anything new.
    pub open spec fn drain_spec(t: BlockTask) -> BlockTask
        recommends
            t.wf(),
    {
        if t.finished {
            t
        } else {
            BlockTask { ticks_done: (t.ticks_done + 1) as u8, cancelled: true, finished: true, ..t }
        }
    }

    /// Send the cancellation signal on the one-shot channel. If the
    /// computation has already resolved, the signal goes unobserved; the
    /// send itself never fails and never blocks.
    pub fn cancel(&mut self)
        ensures
            *final(self) == (BlockTask { cancelled: true, ..*old(self) }),
    {
        self.cancelled = true;
    }

    /// One tick boundary of this running computation. `Some(u)` reports
    /// that the computation just delivered `UpdateCount(u)` to the view
    /// actor; the embedding performs that delivery.
    pub fn tick(&mut self) -> (out: Option<u8>)
        requires
            old(self).wf(),
            !old(self).finished,
        ensures
            final(self).wf(),
            *final(self) == BlockTask::tick_spec(*old(self)).0,
            out == BlockTask::tick_spec(*old(self)).1,
    {
        self.ticks_done = self.ticks_done + 1;
        if self.cancelled {
            self.finished = true;
            None
        } else if self.ticks_done == TICKS {
            self.finished = true;
            self.delivered = true;
            Some(crate::view::wrapping_successor(self.value))
        } else {
            None
        }
    }
}

/// The worker actor's state: at most one computation slot.
#[derive(Debug)]
pub struct CounterState {
    /// The current computation, if one has been spawned and not yet
    /// discarded by a drain.
    pub prev: Option<BlockTask>,
}

/// One tick of the worker's slot as seen from outside: a running
/// computation advances one boundary, an empty or resolved slot is
/// unchanged and delivers nothing.
pub open spec fn counter_tick_spec(s: CounterState) -> (CounterState, Option<u8>)
    recommends
        s.wf(),
{
    match s.prev {
        Option::None => (s, None),
        Option::Some(t) => {
            if t.finished {
                (s, None)
            } else {
                let (t2, out) = BlockTask::tick_spec(t);
                (CounterState { prev: Some(t2) }, out)
            }
        },
    }
}

/// The worker state after accepting `IncrementCounter(v)`: whatever was in
/// the slot has been drained away and a fresh computation for `v` occupies
/// it.
pub open spec fn handle_spec(s: CounterState, v: u8) -> CounterState {
    CounterState { prev: Some(BlockTask::spawned(v)) }
}

impl CounterState {
    /// Well-formedness: the slot's task, if any, is well-formed.
    pub open spec fn wf(self) -> bool {
        self.prev matches Some(t) ==> t.wf()
    }

    /// Resolve and remove the current computation, as the worker does
    /// before starting a new one and when it stops: if the task has not
    /// finished, send the cancellation signal and await it, which resolves
    /// the task at its next boundary without a delivery. Returns the
    /// resolved task for inspection; its `delivered` flag is exactly what
    /// the task had already delivered beforehand.
    pub fn resolve_current(&mut self) -> (drained: Option<BlockTask>)
        requires
            old(self).wf(),
        ensures
            final(self).wf(),
            final(self).prev is None,
            match old(self).prev {
                Option::None => drained is None,
                Option::Some(t) => drained == Some(BlockTask::drain_spec(t)),
            },
            drained matches Some(d) ==> d.finished,
    {
        let current = self.prev;
        self.prev = None;
        match current {
            Option::None => None,
            Option::Some(mut t) => {
                if !t.finished {
                    t.cancel();
                    // Await resolution: the pending signal is observed at
                    // the next tick boundary, so the task resolves there
                    // and delivers nothing.
                    let _ = t.tick();
                }
                Some(t)
            },
        }
    }

    /// One tick boundary of the in-flight computation, if one is running.
    /// `Some(u)` reports a completed delivery of `UpdateCount(u)`.
    pub fn tick(&mut self) -> (out: Option<u8>)
        requires
            old(self).wf(),
        ensures
            final(self).wf(),
            *final(self) == counter_tick_spec(*old(self)).0,
            out == counter_tick_spec(*old(self)).1,
    {
        let current = self.prev;
        match current {
            Option::None => None,
            Option::Some(mut t) => {
                if t.finished {
                    None
                } else {
                    let out = t.tick();
                    self.prev = Some(t);
                    out
                }
            },
        }
    }
}

/// The worker actor itself: its start-up state, its serialized message
/// handler, and its stop hook. The mailbox belongs to the embedding.
pub struct Counter;

impl Counter {
    /// The state a freshly started worker actor owns: an empty slot.
    pub fn pre_start() -> (s: CounterState)
        ensures
            s.prev is None,
    {
        CounterState { prev: None }
    }

    /// One serialized mailbox step: first resolve the predecessor (cancel
    /// if it is still running, then await it) — this upholds the
    /// at-most-one-in-flight invariant before anything new starts — then
    /// spawn a fresh computation for the request's value. Returns the
    /// resolved predecessor for inspection; the drain itself never delivers
    /// an update.
    pub fn handle(state: &mut CounterState, message: CounterMessage) -> (drained: Option<
        BlockTask,
    >)
        requires
            old(state).wf(),
        ensures
            final(state).wf(),
            *final(state) == handle_spec(*old(state), message->0),
            match old(state).prev {
                Option::None => drained is None,
                Option::Some(t) => drained == Some(BlockTask::drain_spec(t)),
            },
            drained matches Some(d) ==> d.finished && d.delivered == (old(
                state,
            ).prev->Some_0.delivered),
    {
        let drained = state.resolve_current();
        let CounterMessage::IncrementCounter(cur) = message;
        state.prev = Some(
            BlockTask { value: cur, ticks_done: 0, cancelled: false, finished: false, delivered: false },
        );
        drained
    }

    /// The stop hook: resolve the current computation exactly as a new
    /// request would, and only then let the actor finish stopping. The
    /// returned task is always resolved — stopping never leaves a
    /// computation behind, and never triggers a new delivery.
    pub fn post_stop(state: &mut CounterState) -> (drained: Option<BlockTask>)
        requires
            old(state).wf(),
        ensures
            final(state).wf(),
            final(state).prev is None,
            match old(state).prev {
                Option::None => drained is None,
                Option::Some(t) => drained == Some(BlockTask::drain_spec(t)),
            },
            drained matches Some(d) ==> d.finished && d.delivered == (old(
                state,
            ).prev->Some_0.delivered),
    {
        state.resolve_current()
    }
}

/// The worker state and the updates delivered over `n` tick boundaries.
pub open spec fn run_spec(s: CounterState, n: nat) -> (CounterState, Seq<u8>)
    decreases n,
{
    if n == 0 {
        (s, Seq::empty())
    } else {
        let (s1, out) = counter_tick_spec(s);
        let (s2, rest) = run_spec(s1, (n - 1) as nat);
        match out {
            Option::None => (s2, rest),
            Option::Some(u) => (s2, seq![u] + rest),
        }
    }
}

/// Law: over any number of tick boundaries, the slot delivers at most one
/// update, and exactly the wrapped successor of its request value; it
/// delivers precisely when the computation is unresolved, the cancellation
/// signal has not been sent, and enough boundaries pass to exhaust the tick
/// budget. In particular a cancelled computation never delivers anything.
pub proof fn lemma_run_deliveries(s: CounterState, n: nat)
    requires
        s.wf(),
    ensures
        run_spec(s, n).1 == (match s.prev {
            Option::None => Seq::<u8>::empty(),
            Option::Some(t) => {
                if !t.finished && !t.cancelled && n + t.ticks_done >= TICKS {
                    seq![inc_wrap(t.value)]
                } else {
                    Seq::<u8>::empty()
                }
            },
        }),
    decreases n,
{
    if n > 0 {
        let (s1, out) = counter_tick_spec(s);
        lemma_run_deliveries(s1, (n - 1) as nat);
        match s.prev {
            Option::None => {},
            Option::Some(t) => {
                if !t.finished && !t.cancelled && t.ticks_done + 1 == TICKS {
                    assert(run_spec(s, n).1 =~= seq![inc_wrap(t.value)]);
                }
            },
        }
    }
}

/// Law: when a second increment request arrives before the first request's
/// computation has completed (strictly fewer tick boundaries have passed
/// than the budget), the first request never delivers an update — neither
/// before the second request, nor after it, because cancel-and-drain
/// resolves the first computation before the second one exists. Every
/// update delivered afterwards belongs to the second request, and there is
/// at most one.
pub proof fn lemma_no_stale_update(s0: CounterState, v1: u8, v2: u8, k: nat, n: nat)
    requires
        k < TICKS,
    ensures
        ({
            let s1 = handle_spec(s0, v1);
            let (s1k, d1) = run_spec(s1, k);
            let s2 = handle_spec(s1k, v2);
            let (s2n, d2) = run_spec(s2, n);
            &&& d1 == Seq::<u8>::empty()
            &&& d2.len() <= 1
            &&& forall|i: int| 0 <= i < d2.len() ==> d2[i] == inc_wrap(v2)
        }),
{
    let s1 = handle_spec(s0, v1);
    lemma_run_deliveries(s1, k);
    let (s1k, d1) = run_spec(s1, k);
    let s2 = handle_spec(s1k, v2);
    lemma_run_deliveries(s2, n);
}

/// Law: two increment requests inside one tick window produce exactly one
/// eventual update, carrying the second request's value plus one — not the
/// first request's — once the second computation's tick budget elapses
/// undisturbed.
pub proof fn lemma_second_request_wins(s0: CounterState, v1: u8, v2: u8, k: nat, n: nat)
    requires
        k < TICKS,
        n >= TICKS,
    ensures
        ({
            let s1 = handle_spec(s0, v1);
            let (s1k, d1) = run_spec(s1, k);
            let s2 = handle_spec(s1k, v2);
            let (s2n, d2) = run_spec(s2, n);
            &&& d1 == Seq::<u8>::empty()
            &&& d2 == seq![inc_wrap(v2)]
        }),
{
    let s1 = handle_spec(s0, v1);
    lemma_run_deliveries(s1, k);
    let (s1k, d1) = run_spec(s1, k);
    let s2 = handle_spec(s1k, v2);
    lemma_run_deliveries(s2, n);
}

} // verus!
