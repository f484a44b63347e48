//! The per-connection step: each inbound move is validated and applied
//! against the shared session, and the outcome is fanned out — a success
//! broadcasts the new state to both slots, a refusal sends one
//! error-tagged snapshot back to the offending sender.

use vstd::prelude::*;

use crate::dispatch;
use crate::session::GameSession;
use crate::session::Move;
use crate::session::MoveError;
use crate::session::move_outcome;
use crate::session::move_target;

verus! {

/// Process one inbound move under exclusive access to the session.
/// Exactly one notification cycle follows the call, whichever way the
/// validation went; the returned verdict and the session's new state are
/// the ones `move_outcome` and `move_target` state.
pub fn handle_move(session: &mut GameSession, mv: Move) -> (r: Result<(), MoveError>)
    requires
        old(session).wf(),
    ensures
        final(session).wf(),
        r == move_outcome(old(session)@, mv.claimed_symbol, mv.position as int),
        final(session)@ == move_target(old(session)@, mv.claimed_symbol, mv.position as int),
{
    let r = session.apply_move(mv.claimed_symbol, mv.position);
    match &r {
        Ok(_) => {
            dispatch::broadcast(session);
        },
        Err(e) => {
            dispatch::notify_error(session, mv.claimed_symbol, *e);
        },
    }
    r
}

} // verus!
