//! The view actor: owner of the interactive session state (counter value and
//! exit flag) and interpreter of decoded key events.
//!
//! Every handler is a pure transition on [`AppState`] that returns an
//! [`AppEffect`]: the outward action (rendering, a self-addressed draw
//! request, a reply, a request to the worker actor) that the embedding must
//! perform. The embedding owns the display surface and the mailboxes; the
//! decisions all live here.

use vstd::prelude::*;

verus! {

/// A decoded key code. This is the session's own model of what the input
/// collaborator hands over: the three bound keys are distinguished, every
/// other key is `Other`.
///
/// Bindings (fixed): `q` quits, Left decrements, Right increments.
#[derive(Clone, Copy, Debug)]
pub enum KeyCode {
    Char(char),
    Left,
    Right,
    Other,
}

/// How a key event was produced. Some host platforms also emit release and
/// repeat events; only presses drive the session.
#[derive(Clone, Copy, Debug)]
pub enum KeyEventKind {
    Press,
    Release,
    Repeat,
}

/// One decoded key event from the input collaborator.
#[derive(Clone, Copy, Debug)]
pub struct KeyEvent {
    pub code: KeyCode,
    pub kind: KeyEventKind,
}

/// The view actor's mailbox message set.
pub enum AppMessage {
    /// Re-render the current state onto the display surface.
    Draw,
    /// A completed background computation reports the new counter value.
    UpdateCount(u8),
    /// One decoded key event, forwarded by the driving loop.
    HandleKey(KeyEvent),
    /// Query: should the driving loop exit? The embedding replies with the
    /// boolean carried by [`AppEffect::ReplyExit`].
    Exit,
}

/// The outward action a view-actor step asks the embedding to perform.
#[derive(Clone, Copy, Debug)]
pub enum AppEffect {
    /// No outward action.
    Nothing,
    /// Render the panel for this counter value onto the display surface.
    Render(u8),
    /// Enqueue a `Draw` message to the view actor itself.
    RequestDraw,
    /// Answer an exit query with this flag.
    ReplyExit(bool),
    /// Forward an increment request carrying this counter value to the
    /// worker actor.
    SendIncrement(u8),
}

/// Counter decrement with wraparound: the counter is an unsigned 8-bit
/// value and the chosen underflow policy is wrapping, so decrementing zero
/// yields 255.
pub open spec fn dec_wrap(c: u8) -> u8 {
    if c == 0 {
        255u8
    } else {
        (c - 1) as u8
    }
}

/// Counter increment with wraparound: incrementing 255 yields zero.
pub open spec fn inc_wrap(c: u8) -> u8 {
    if c == 255 {
        0u8
    } else {
        (c + 1) as u8
    }
}

/// The wrapped successor of a counter value: what a completed increment
/// computation delivers for request value `c`.
pub fn wrapping_successor(c: u8) -> (r: u8)
    ensures
        r == inc_wrap(c),
{
    if c == 255 {
        0
    } else {
        c + 1
    }
}

/// The session state owned by the view actor. The display surface itself
/// stays with the embedding; only the data rendered onto it lives here.
#[derive(Clone, Copy, Debug)]
pub struct AppState {
    /// The displayed counter value.
    pub counter: u8,
    /// Monotonic exit flag: set once by the quit key, never reset.
    pub exit: bool,
}

/// The state after one key event: quit sets the exit flag, the decrement
/// key wraps the counter down, every other key leaves the state unchanged
/// (the increment key only emits a request; the counter moves later, when
/// the worker's completion is delivered).
pub open spec fn key_state_after(s: AppState, e: KeyEvent) -> AppState {
    match e.code {
        KeyCode::Char(c) => if c == 'q' {
            AppState { exit: true, ..s }
        } else {
            s
        },
        KeyCode::Left => AppState { counter: dec_wrap(s.counter), ..s },
        KeyCode::Right => s,
        KeyCode::Other => s,
    }
}

/// The effect of one key event: only the increment key asks for an outward
/// action, an increment request carrying the current counter value.
pub open spec fn key_effect(s: AppState, e: KeyEvent) -> AppEffect {
    if e.code is Right {
        AppEffect::SendIncrement(s.counter)
    } else {
        AppEffect::Nothing
    }
}

/// The state the view actor starts in.
pub open spec fn initial_app_state() -> AppState {
    AppState { counter: 0, exit: false }
}

/// The state after one mailbox message.
pub open spec fn app_step_state(s: AppState, m: AppMessage) -> AppState {
    match m {
        AppMessage::Draw => s,
        AppMessage::UpdateCount(n) => AppState { counter: n, ..s },
        AppMessage::HandleKey(e) => key_state_after(s, e),
        AppMessage::Exit => s,
    }
}

/// The effect of one mailbox message: a draw renders the current counter, a
/// delivered update asks the actor to redraw itself, an exit query is
/// answered with the flag, and a key event acts as [`key_effect`].
pub open spec fn app_step_effect(s: AppState, m: AppMessage) -> AppEffect {
    match m {
        AppMessage::Draw => AppEffect::Render(s.counter),
        AppMessage::UpdateCount(_) => AppEffect::RequestDraw,
        AppMessage::HandleKey(e) => key_effect(s, e),
        AppMessage::Exit => AppEffect::ReplyExit(s.exit),
    }
}

impl AppState {
    /// Record the quit request. The flag is monotonic: nothing ever clears
    /// it, and the counter is untouched.
    pub fn exit(&mut self)
        ensures
            final(self).exit,
            final(self).counter == old(self).counter,
    {
        self.exit = true;
    }

    /// Decrement the counter, wrapping below zero.
    pub fn decrement_counter(&mut self)
        ensures
            final(self).counter == dec_wrap(old(self).counter),
            final(self).exit == old(self).exit,
    {
        if self.counter == 0 {
            self.counter = 255;
        } else {
            self.counter = self.counter - 1;
        }
    }

    /// Increment the counter, wrapping above 255.
    pub fn increment_counter(&mut self)
        ensures
            final(self).counter == inc_wrap(old(self).counter),
            final(self).exit == old(self).exit,
    {
        if self.counter == 255 {
            self.counter = 0;
        } else {
            self.counter = self.counter + 1;
        }
    }

    /// Answer the exit query without side effects.
    pub fn should_exit(&self) -> (b: bool)
        ensures
            b == self.exit,
    {
        self.exit
    }

    /// Interpret one decoded key: quit sets the exit flag, decrement wraps
    /// the counter down, increment emits a request carrying the current
    /// counter value (and does not touch the counter), anything else is a
    /// no-op.
    pub fn handle_key_event(&mut self, key_event: KeyEvent) -> (eff: AppEffect)
        ensures
            *final(self) == key_state_after(*old(self), key_event),
            eff == key_effect(*old(self), key_event),
    {
        match key_event.code {
            KeyCode::Char(c) => {
                if c == 'q' {
                    self.exit();
                }
                AppEffect::Nothing
            },
            KeyCode::Left => {
                self.decrement_counter();
                AppEffect::Nothing
            },
            KeyCode::Right => AppEffect::SendIncrement(self.counter),
            KeyCode::Other => AppEffect::Nothing,
        }
    }
}

/// The view actor itself: its start-up state and its serialized message
/// handler. The mailbox that feeds `handle` one message at a time belongs
/// to the embedding.
pub struct App;

impl App {
    /// The state a freshly started view actor owns.
    pub fn pre_start() -> (s: AppState)
        ensures
            s == initial_app_state(),
    {
        AppState { counter: 0, exit: false }
    }

    /// One serialized mailbox step: mutate the state as
    /// [`app_step_state`] says and hand the embedding the single outward
    /// action of this message.
    pub fn handle(state: &mut AppState, message: AppMessage) -> (eff: AppEffect)
        ensures
            *final(state) == app_step_state(*old(state), message),
            eff == app_step_effect(*old(state), message),
    {
        match message {
            AppMessage::Draw => AppEffect::Render(state.counter),
            AppMessage::UpdateCount(new) => {
                state.counter = new;
                AppEffect::RequestDraw
            },
            AppMessage::HandleKey(evt) => state.handle_key_event(evt),
            AppMessage::Exit => AppEffect::ReplyExit(state.exit),
        }
    }
}

/// Law: the exit flag is monotonic — once the quit key has set it, no
/// later message of any kind clears it.
pub proof fn lemma_exit_monotonic(s: AppState, m: AppMessage)
    ensures
        s.exit ==> app_step_state(s, m).exit,
{
}

/// Law: for every counter value, with or without an increment in flight,
/// a decrement key yields the wrapped predecessor and leaves the exit flag
/// alone, and a quit key sets the exit flag and leaves the counter alone.
pub proof fn lemma_decrement_and_quit(s: AppState)
    ensures
        key_state_after(s, KeyEvent { code: KeyCode::Left, kind: KeyEventKind::Press })
            == (AppState { counter: dec_wrap(s.counter), ..s }),
        key_state_after(s, KeyEvent { code: KeyCode::Char('q'), kind: KeyEventKind::Press })
            == (AppState { exit: true, ..s }),
{
}

} // verus!
