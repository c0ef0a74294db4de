//! The driving loop's decisions and the two-actor session as one closed
//! state machine.
//!
//! The real loop bootstraps both actors, pumps input events into the view
//! actor, polls the exit flag, and shuts both actors down in order. Its
//! decisions — which events to forward, and how completed background work
//! flows back into the view — are verified here. [`Session`] composes the
//! view state and the worker slot and wires them exactly as the mailboxes
//! do: an increment key becomes a worker request, a finished computation's
//! update overwrites the counter and triggers an immediate redraw.

use vstd::prelude::*;
use crate::counter::{counter_tick_spec, handle_spec, BlockTask, Counter, CounterMessage, CounterState};
use crate::view::{
    key_effect, key_state_after, App, AppEffect, AppMessage, AppState, KeyEvent,
};

verus! {

/// One event from the input collaborator: a decoded key event, or anything
/// else (resize, focus, paste, ...), which the session ignores.
pub enum InputEvent {
    Key(KeyEvent),
    Other,
}

/// The message the driving loop forwards for one input event: key presses
/// become `HandleKey`; release and repeat events, which some host
/// platforms also emit, and all non-key events are dropped.
pub open spec fn route_spec(e: InputEvent) -> Option<AppMessage> {
    match e {
        InputEvent::Key(k) => if k.kind is Press {
            Some(AppMessage::HandleKey(k))
        } else {
            Option::<AppMessage>::None
        },
        InputEvent::Other => None,
    }
}

/// The driving loop's routing decision for one input event.
pub fn route_event(event: &InputEvent) -> (m: Option<AppMessage>)
    ensures
        m == route_spec(*event),
{
    match event {
        InputEvent::Key(k) => {
            match k.kind {
                crate::view::KeyEventKind::Press => Some(AppMessage::HandleKey(*k)),
                _ => None,
            }
        },
        InputEvent::Other => None,
    }
}

/// The whole interactive session: the view actor's state and the worker
/// actor's slot, with the message wiring between them made explicit.
pub struct Session {
    pub app: AppState,
    pub counter: CounterState,
}

impl Session {
    pub open spec fn wf(self) -> bool {
        self.counter.wf()
    }

    /// Bootstrap: both actors started with their initial states.
    pub fn start() -> (s: Session)
        ensures
            s.wf(),
            s.app == crate::view::initial_app_state(),
            s.counter.prev is None,
    {
        Session { app: App::pre_start(), counter: Counter::pre_start() }
    }

    /// One key press reaching the view actor. The view state moves as the
    /// key dictates; if the key was the increment, the worker drains any
    /// predecessor and spawns a fresh computation for the counter value
    /// the request carried. No other key touches the worker.
    pub fn on_key(&mut self, event: KeyEvent)
        requires
            old(self).wf(),
        ensures
            final(self).wf(),
            final(self).app == key_state_after(old(self).app, event),
            match key_effect(old(self).app, event) {
                AppEffect::SendIncrement(v) => final(self).counter == handle_spec(
                    old(self).counter,
                    v,
                ),
                _ => final(self).counter == old(self).counter,
            },
    {
        let eff = self.app.handle_key_event(event);
        match eff {
            AppEffect::SendIncrement(v) => {
                let _ = Counter::handle(&mut self.counter, CounterMessage::IncrementCounter(v));
            },
            _ => {},
        }
    }

    /// One tick boundary of the in-flight computation. If the computation
    /// completes here, its update is delivered to the view actor, which
    /// overwrites its counter and immediately redraws itself; the redrawn
    /// counter value is returned. Otherwise nothing is visible.
    pub fn on_tick(&mut self) -> (drawn: Option<u8>)
        requires
            old(self).wf(),
        ensures
            final(self).wf(),
            final(self).counter == counter_tick_spec(old(self).counter).0,
            match counter_tick_spec(old(self).counter).1 {
                Option::None => final(self).app == old(self).app && drawn is None,
                Option::Some(u) => final(self).app == (AppState {
                    counter: u,
                    ..old(self).app
                }) && drawn == Some(u),
            },
    {
        let out = self.counter.tick();
        match out {
            Option::None => None,
            Option::Some(u) => {
                let _ = App::handle(&mut self.app, AppMessage::UpdateCount(u));
                // The update handler requested a redraw of the actor
                // itself; the mailbox serves it next.
                let eff = App::handle(&mut self.app, AppMessage::Draw);
                match eff {
                    AppEffect::Render(c) => Some(c),
                    _ => None,
                }
            },
        }
    }

    /// The exit poll the driving loop performs each iteration.
    pub fn should_exit(&self) -> (b: bool)
        ensures
            b == self.app.exit,
    {
        self.app.should_exit()
    }

    /// Ordered shutdown: the view actor stops first, then the worker
    /// actor, whose stop hook resolves the in-flight computation — so the
    /// returned task, if any, is always resolved, and stopping never
    /// delivers a new update or leaks a computation.
    pub fn stop(&mut self) -> (drained: Option<BlockTask>)
        requires
            old(self).wf(),
        ensures
            final(self).wf(),
            final(self).app == old(self).app,
            final(self).counter.prev is None,
            match old(self).counter.prev {
                Option::None => drained is None,
                Option::Some(t) => drained == Some(BlockTask::drain_spec(t)),
            },
            drained matches Some(d) ==> d.finished,
    {
        Counter::post_stop(&mut self.counter)
    }
}

} // verus!
