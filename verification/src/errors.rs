//! The session core's error taxonomy.
//!
//! Each failure is terminal for the current message-processing cycle of the
//! actor that encounters it: the core has no retry or restart policy. The
//! registry lookup produces `PeerUnavailable` itself; the other two arise
//! at the messaging boundary, where the embedding maps a closed mailbox or
//! a failed join of a computation handle onto them.

use vstd::prelude::*;

verus! {

/// Why an operation of the session core failed.
#[derive(Clone, Copy, Debug, PartialEq, Eq, Structural)]
pub enum SessionError {
    /// A name lookup against the registry found no live actor.
    PeerUnavailable,
    /// A message was sent to an actor whose mailbox is closed.
    MailboxSendFailure,
    /// Awaiting a computation unit's handle failed.
    ComputationJoinFailure,
}

} // verus!
