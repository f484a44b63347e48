//! The dispatcher: derives each recipient's personalized snapshot from
//! the shared session state and pushes it over that recipient's channel.
//! Delivery is best effort — a full or closed channel never blocks or
//! fails the caller.

use vstd::prelude::*;

use crate::board::Symbol;
use crate::channel::best_effort_send;
use crate::session::GameSession;
use crate::session::MoveError;
use crate::snapshot::Snapshot;

verus! {

/// Build the snapshot one recipient is to see: the session's board, turn
/// holder and phase as they stand, tagged with the recipient's own
/// symbol and the given error message.  Constructed fresh per recipient;
/// no snapshot is ever shared or mutated after construction.
pub fn snapshot_for(session: &GameSession, recipient: Symbol, error_message: Option<String>) -> (s:
    Snapshot)
    requires
        session.wf(),
    ensures
        s.board@ == session@.board,
        s.next_to_move == session@.next_to_move,
        s.status == session@.status,
        s.recipient_symbol == recipient,
        s.error_message == error_message,
{
    Snapshot {
        board: session.board.cells(),
        next_to_move: session.next_to_move,
        status: session.status,
        recipient_symbol: recipient,
        error_message,
    }
}

/// Push the current state to every occupied slot, each copy carrying
/// that slot's own symbol as `recipient_symbol` and no error.
pub fn broadcast(session: &GameSession)
    requires
        session.wf(),
{
    if let Some(slot) = &session.slot_x {
        let snap = snapshot_for(session, slot.symbol, None);
        best_effort_send(&slot.outbound, snap);
    }
    if let Some(slot) = &session.slot_o {
        let snap = snapshot_for(session, slot.symbol, None);
        best_effort_send(&slot.outbound, snap);
    }
}

/// Push the current state to the one slot holding `recipient`, if it is
/// occupied, carrying no error.  Used to greet a newly admitted
/// participant with its assigned symbol while the table still waits.
pub fn send_to(session: &GameSession, recipient: Symbol)
    requires
        session.wf(),
{
    let slot_ref = match recipient {
        Symbol::X => &session.slot_x,
        Symbol::O => &session.slot_o,
    };
    if let Some(slot) = slot_ref {
        let snap = snapshot_for(session, slot.symbol, None);
        best_effort_send(&slot.outbound, snap);
    }
}

/// Push an error-tagged snapshot to the offending sender only; the peer
/// is not notified of a refused move.
pub fn notify_error(session: &GameSession, recipient: Symbol, error: MoveError)
    requires
        session.wf(),
{
    let slot_ref = match recipient {
        Symbol::X => &session.slot_x,
        Symbol::O => &session.slot_o,
    };
    if let Some(slot) = slot_ref {
        let snap = snapshot_for(session, slot.symbol, Some(error.message()));
        best_effort_send(&slot.outbound, snap);
    }
}

} // verus!
