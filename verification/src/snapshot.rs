//! The outbound state message: an immutable point-in-time projection of
//! the session, personalized per recipient.

use vstd::prelude::*;

use crate::board::Cell;
use crate::board::Symbol;
use crate::session::GameStatus;

verus! {

/// What one participant is told after a transition: the shared truth
/// (board, turn holder, phase) plus the two per-recipient fields — the
/// recipient's own symbol and, on a refused move, the error message.
pub struct Snapshot {
    pub board: Vec<Cell>,
    pub next_to_move: Symbol,
    pub status: GameStatus,
    pub recipient_symbol: Symbol,
    pub error_message: Option<String>,
}

} // verus!
