//! One game table: the board, the turn holder, the authoritative phase,
//! and the two player slots.  `apply_move`, `assign_slot` and `disconnect` are
//! the only transitions.

use vstd::prelude::*;

use crate::board::Board;
use crate::board::BoardError;
use crate::board::Cell;
use crate::board::Symbol;
use crate::board::board_full;
use crate::board::empty_board;
use crate::board::winner_of;
use crate::channel::OutboundChannel;

verus! {

/// The session's authoritative phase.  `Won` and `Draw` are terminal:
/// no move is accepted until a disconnect resets the table.
#[derive(Clone, Copy, PartialEq, Eq, Structural, Debug)]
pub enum GameStatus {
    Waiting,
    Ongoing,
    Won(Symbol),
    Draw,
}

/// Why a submitted move was refused.  The session state is unchanged in
/// every one of these cases.
#[derive(Clone, Copy, PartialEq, Eq, Structural, Debug)]
pub enum MoveError {
    NotOngoing,
    NotYourTurn,
    InvalidPosition,
    CellOccupied,
}

impl MoveError {
    /// The one user-visible message for each refusal.
    pub fn message(&self) -> (r: String)
        ensures
            self is NotOngoing ==> r@ == "game not ongoing"@,
            self is NotYourTurn ==> r@ == "not your turn"@,
            self is InvalidPosition ==> r@ == "invalid position"@,
            self is CellOccupied ==> r@ == "cell occupied"@,
    {
        match self {
            MoveError::NotOngoing => "game not ongoing".to_owned(),
            MoveError::NotYourTurn => "not your turn".to_owned(),
            MoveError::InvalidPosition => "invalid position".to_owned(),
            MoveError::CellOccupied => "cell occupied".to_owned(),
        }
    }
}

/// Why an admission was refused.
#[derive(Clone, Copy, PartialEq, Eq, Structural, Debug)]
pub enum AdmissionError {
    TableFull,
}

impl AdmissionError {
    /// The one user-visible message.
    pub fn message(&self) -> (r: String)
        ensures
            r@ == "table full"@,
    {
        "table full".to_owned()
    }
}

/// A move as submitted by a participant.  Not retained after processing.
#[derive(Clone, Copy, PartialEq, Eq, Structural, Debug)]
pub struct Move {
    pub claimed_symbol: Symbol,
    pub position: usize,
}

/// A connected participant: its assigned symbol and the channel its
/// state updates are pushed over.  The channel is owned by the transport
/// layer; the slot only holds a handle to it.
pub struct PlayerSlot {
    pub symbol: Symbol,
    pub outbound: OutboundChannel,
}

/// The mathematical state of a session: the board cells, whose turn it
/// is, the phase, and which slots are occupied.
#[verifier::ext_equal]
pub ghost struct SessionView {
    pub board: Seq<Cell>,
    pub next_to_move: Symbol,
    pub status: GameStatus,
    pub has_x: bool,
    pub has_o: bool,
}

impl SessionView {
    /// The session invariant: every reachable state satisfies it.
    pub open spec fn inv(self) -> bool {
        &&& self.board.len() == 9
        &&& (self.status is Waiting <==> !(self.has_x && self.has_o))
        &&& (self.status is Waiting ==> self.board == empty_board() && self.next_to_move
            == Symbol::X)
        &&& (self.status is Ongoing ==> winner_of(self.board) is None && !board_full(self.board))
        &&& (self.status matches GameStatus::Won(s) ==> winner_of(self.board) == Some(s))
        &&& (self.status is Draw ==> board_full(self.board) && winner_of(self.board) is None)
    }
}

/// A terminal phase: the game is decided and no further move is
/// accepted until a disconnect resets the table.
pub open spec fn is_terminal(st: GameStatus) -> bool {
    st matches GameStatus::Won(_) || st is Draw
}

/// The state a session starts from and is reset to: empty board, `X` to
/// move, `Waiting`, both slots free.
pub open spec fn reset_view() -> SessionView {
    SessionView {
        board: empty_board(),
        next_to_move: Symbol::X,
        status: GameStatus::Waiting,
        has_x: false,
        has_o: false,
    }
}

/// The phase that holds right after a symbol lands on `b`: the winner's
/// victory if a triple is complete, a draw on a full board, else still
/// ongoing.
pub open spec fn next_status(b: Seq<Cell>) -> GameStatus {
    match winner_of(b) {
        Some(w) => GameStatus::Won(w),
        None => if board_full(b) {
            GameStatus::Draw
        } else {
            GameStatus::Ongoing
        },
    }
}

/// The verdict on a submitted move, checked in this order: the game must
/// be ongoing, it must be the sender's turn, the position must be on the
/// board, and the cell must be free.
pub open spec fn move_outcome(v: SessionView, symbol: Symbol, position: int) -> Result<
    (),
    MoveError,
> {
    if v.status !is Ongoing {
        Err(MoveError::NotOngoing)
    } else if symbol != v.next_to_move {
        Err(MoveError::NotYourTurn)
    } else if !(0 <= position < 9) {
        Err(MoveError::InvalidPosition)
    } else if v.board[position] !is Empty {
        Err(MoveError::CellOccupied)
    } else {
        Ok(())
    }
}

/// The session state after a submitted move: unchanged on any refusal;
/// on success the cell is marked, the phase follows `next_status`, and
/// the turn passes to the opponent only while the game stays ongoing.
pub open spec fn move_target(v: SessionView, symbol: Symbol, position: int) -> SessionView {
    if move_outcome(v, symbol, position) is Err {
        v
    } else {
        let b2 = v.board.update(position, Cell::Occupied(symbol));
        let st = next_status(b2);
        SessionView {
            board: b2,
            status: st,
            next_to_move: if st is Ongoing {
                symbol.spec_other()
            } else {
                v.next_to_move
            },
            ..v
        }
    }
}

/// The aggregate owned by the registry.  All mutation goes through
/// `assign_slot`, `apply_move` and `disconnect`.
pub struct GameSession {
    pub board: Board,
    pub next_to_move: Symbol,
    pub status: GameStatus,
    pub slot_x: Option<PlayerSlot>,
    pub slot_o: Option<PlayerSlot>,
}

impl View for GameSession {
    type V = SessionView;

    open spec fn view(&self) -> SessionView {
        SessionView {
            board: self.board@,
            next_to_move: self.next_to_move,
            status: self.status,
            has_x: self.slot_x is Some,
            has_o: self.slot_o is Some,
        }
    }
}

impl GameSession {
    /// Well-formedness: the invariant holds and each occupied slot
    /// carries the symbol it was admitted under.
    pub open spec fn wf(&self) -> bool {
        &&& self@.inv()
        &&& (self.slot_x matches Some(p) ==> p.symbol == Symbol::X)
        &&& (self.slot_o matches Some(p) ==> p.symbol == Symbol::O)
    }

    /// A fresh table: empty board, `X` to move, waiting for players.
    pub fn new() -> (s: GameSession)
        ensures
            s.wf(),
            s@ == reset_view(),
    {
        let s = GameSession {
            board: Board::new(),
            next_to_move: Symbol::X,
            status: GameStatus::Waiting,
            slot_x: None,
            slot_o: None,
        };
        proof {
            assert(s@ =~= reset_view());
        }
        s
    }

    /// Assign the incoming connection a slot: `X` if free, else `O`,
    /// else refuse with the table-full error and change nothing.  Filling
    /// the second slot starts the game.
    pub fn assign_slot(&mut self, outbound: OutboundChannel) -> (r: Result<Symbol, AdmissionError>)
        requires
            old(self).wf(),
        ensures
            final(self).wf(),
            r is Err <==> old(self)@.has_x && old(self)@.has_o,
            r is Err ==> r == Err::<Symbol, AdmissionError>(AdmissionError::TableFull),
            r is Err ==> *final(self) == *old(self),
            !old(self)@.has_x ==> r == Ok::<Symbol, AdmissionError>(Symbol::X),
            !old(self)@.has_x ==> final(self)@ == (SessionView {
                has_x: true,
                status: admit_status(true, old(self)@.has_o),
                ..old(self)@
            }),
            !old(self)@.has_x ==> final(self).slot_o == old(self).slot_o,
            old(self)@.has_x && !old(self)@.has_o ==> r == Ok::<Symbol, AdmissionError>(Symbol::O),
            old(self)@.has_x && !old(self)@.has_o ==> final(self)@ == (SessionView {
                has_o: true,
                status: admit_status(true, true),
                ..old(self)@
            }),
            old(self)@.has_x && !old(self)@.has_o ==> final(self).slot_x == old(self).slot_x,
    {
        if self.slot_x.is_none() {
            self.slot_x = Some(PlayerSlot { symbol: Symbol::X, outbound });
            if self.slot_o.is_some() {
                self.status = GameStatus::Ongoing;
            }
            proof {
                lemma_empty_board_open();
            }
            Ok(Symbol::X)
        } else if self.slot_o.is_none() {
            self.slot_o = Some(PlayerSlot { symbol: Symbol::O, outbound });
            self.status = GameStatus::Ongoing;
            proof {
                lemma_empty_board_open();
            }
            Ok(Symbol::O)
        } else {
            Err(AdmissionError::TableFull)
        }
    }

    /// Validate and apply one move, in the fixed order that
    /// `move_outcome` states; on any refusal the session is unchanged.
    pub fn apply_move(&mut self, symbol: Symbol, position: usize) -> (r: Result<(), MoveError>)
        requires
            old(self).wf(),
        ensures
            final(self).wf(),
            r == move_outcome(old(self)@, symbol, position as int),
            final(self)@ == move_target(old(self)@, symbol, position as int),
            final(self).slot_x == old(self).slot_x,
            final(self).slot_o == old(self).slot_o,
    {
        if !matches!(self.status, GameStatus::Ongoing) {
            return Err(MoveError::NotOngoing);
        }
        if symbol != self.next_to_move {
            return Err(MoveError::NotYourTurn);
        }
        match self.board.apply(position, symbol) {
            Err(BoardError::OutOfRange) => Err(MoveError::InvalidPosition),
            Err(BoardError::CellOccupied) => Err(MoveError::CellOccupied),
            Ok(()) => {
                match self.board.winner() {
                    Some(w) => {
                        self.status = GameStatus::Won(w);
                    },
                    None => {
                        if self.board.is_full() {
                            self.status = GameStatus::Draw;
                        } else {
                            self.next_to_move = self.next_to_move.other();
                        }
                    },
                }
                proof {
                    assert(self@ =~= move_target(old(self)@, symbol, position as int));
                }
                Ok(())
            },
        }
    }

    /// A participant is gone: its slot is removed and the whole table is
    /// torn down — empty board, `X` to move, `Waiting`, both slots freed —
    /// whichever symbol disconnects.
    pub fn disconnect(&mut self, symbol: Symbol)
        requires
            old(self).wf(),
        ensures
            final(self).wf(),
            final(self)@ == reset_view(),
    {
        match symbol {
            Symbol::X => {
                self.slot_x = None;
            },
            Symbol::O => {
                self.slot_o = None;
            },
        }
        // The reset also frees the peer's slot: the table does not pause
        // for reconnection once either participant is gone.
        self.slot_x = None;
        self.slot_o = None;
        self.board = Board::new();
        self.next_to_move = Symbol::X;
        self.status = GameStatus::Waiting;
        proof {
            assert(self@ =~= reset_view());
        }
    }

    /// The current phase.
    pub fn current_status(&self) -> (s: GameStatus)
        ensures
            s == self@.status,
    {
        self.status
    }

    /// Whose turn it is.
    pub fn next_player(&self) -> (s: Symbol)
        ensures
            s == self@.next_to_move,
    {
        self.next_to_move
    }
}

/// The phase right after an admission that leaves the slots in the given
/// occupancy: ongoing once both are filled, else still waiting.
pub open spec fn admit_status(has_x: bool, has_o: bool) -> GameStatus {
    if has_x && has_o {
        GameStatus::Ongoing
    } else {
        GameStatus::Waiting
    }
}

/// The empty board has no winner and free cells.
proof fn lemma_empty_board_open()
    ensures
        winner_of(empty_board()) is None,
        !board_full(empty_board()),
{
    assert(empty_board()[0] is Empty);
}

} // verus!
