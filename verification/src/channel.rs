//! The delivery side of a player slot: a bounded channel handle owned by
//! the transport layer, pushed to with a best-effort, non-blocking send
//! so that a stalled peer can never hold up the session.

use vstd::prelude::*;

use crate::snapshot::Snapshot;

verus! {

#[verifier::external_type_specification]
#[verifier::external_body]
#[verifier::reject_recursive_types(T)]
pub struct ExSender<T>(tokio::sync::mpsc::Sender<T>);

/// A connected participant's delivery channel for state pushes.
pub type OutboundChannel = tokio::sync::mpsc::Sender<Snapshot>;

/// Relies on tokio's `Sender::try_send`: it hands the message to the
/// channel when there is room and the receiver is alive, and otherwise
/// returns an error immediately instead of blocking or panicking.  The
/// result is deliberately dropped: delivery is fire-and-forget, and a
/// gone peer is detected by its own connection loop.
#[verifier::external_body]
pub(crate) fn best_effort_send(channel: &OutboundChannel, snapshot: Snapshot) {
    let _ = channel.try_send(snapshot);
}

} // verus!
