//! A two-actor interactive counter session: a foreground view actor owning
//! the session state and a background worker actor owning a single
//! cancellable computation slot, coordinated by asynchronous messages.
//!
//! The coordination core is modeled here as verified state machines: the
//! view actor's message dispatch, the worker actor's cancel-and-drain
//! protocol, the name registry the actors discover each other through, and
//! the driving loop's routing and shutdown decisions. An embedding runs the
//! real mailboxes, terminal and background threads around these machines.

pub mod counter;
pub mod errors;
pub mod registry;
pub mod render;
pub mod session;
pub mod view;
