//! The game's laws, proved once and for all: a full board with no
//! completed triple is a draw however it was reached; completing any of
//! the eight winning triples crowns the mover and freezes the table; and
//! a refused move — wrong phase, wrong turn, taken cell — changes
//! nothing.

use vstd::prelude::*;
use vstd::set_lib::lemma_int_range;
use vstd::set_lib::lemma_subset_equality;
use vstd::set_lib::set_int_range;

use crate::board::Cell;
use crate::board::Symbol;
use crate::board::board_full;
use crate::board::empty_board;
use crate::board::has_line;
use crate::board::triple_winner;
use crate::board::winner_of;
use crate::session::GameStatus;
use crate::session::MoveError;
use crate::session::SessionView;
use crate::session::move_outcome;
use crate::session::move_target;
use crate::session::next_status;

verus! {

/// Who plays the `k`-th move of a game (counted from zero): `X` opens
/// and the symbols alternate.
pub open spec fn symbol_at(k: int) -> Symbol {
    if k % 2 == 0 {
        Symbol::X
    } else {
        Symbol::O
    }
}

/// The board after the positions `ps` have been played in order on an
/// empty board, the symbols alternating from `X`.
pub open spec fn board_after(ps: Seq<int>) -> Seq<Cell>
    decreases ps.len(),
{
    if ps.len() == 0 {
        empty_board()
    } else {
        board_after(ps.drop_last()).update(ps.last(), Cell::Occupied(symbol_at(ps.len() - 1)))
    }
}

/// Playing in-range positions keeps the board at nine cells.
proof fn lemma_board_after_len(ps: Seq<int>)
    requires
        forall|k: int| 0 <= k < ps.len() ==> 0 <= #[trigger] ps[k] < 9,
    ensures
        board_after(ps).len() == 9,
    decreases ps.len(),
{
    if ps.len() > 0 {
        lemma_board_after_len(ps.drop_last());
    }
}

/// A position that was played is occupied: cells are never cleared
/// within a game.
proof fn lemma_board_after_occupied(ps: Seq<int>, j: int)
    requires
        forall|k: int| 0 <= k < ps.len() ==> 0 <= #[trigger] ps[k] < 9,
        exists|k: int| 0 <= k < ps.len() && ps[k] == j,
    ensures
        board_after(ps)[j] !is Empty,
    decreases ps.len(),
{
    lemma_board_after_len(ps.drop_last());
    if ps.last() != j {
        let k = choose|k: int| 0 <= k < ps.len() && ps[k] == j;
        assert(ps.drop_last()[k] == j);
        lemma_board_after_occupied(ps.drop_last(), j);
    }
}

/// However the nine cells are filled — any order of nine distinct
/// positions, symbols alternating from `X` — if the final board has no
/// completed triple, the board is full and the game ends in a draw.
pub proof fn lemma_alternating_fill_draw(ps: Seq<int>)
    requires
        ps.len() == 9,
        ps.no_duplicates(),
        forall|k: int| 0 <= k < 9 ==> 0 <= #[trigger] ps[k] < 9,
        winner_of(board_after(ps)) is None,
    ensures
        board_full(board_after(ps)),
        next_status(board_after(ps)) == GameStatus::Draw,
{
    let played = ps.to_set();
    let positions = set_int_range(0, 9);
    ps.unique_seq_to_set();
    lemma_int_range(0, 9);
    assert(played.subset_of(positions));
    lemma_subset_equality(played, positions);
    lemma_board_after_len(ps);
    assert forall|j: int| 0 <= j < 9 implies board_after(ps)[j] !is Empty by {
        assert(positions.contains(j));
        assert(ps.contains(j));
        lemma_board_after_occupied(ps, j);
    }
}

/// A successful move on turn extends the played sequence: the board it
/// leaves is the one reached by playing that position next.
pub proof fn lemma_move_extends_play(v: SessionView, ps: Seq<int>, position: int)
    requires
        v.board == board_after(ps),
        v.next_to_move == symbol_at(ps.len() as int),
        move_outcome(v, v.next_to_move, position) is Ok,
    ensures
        move_target(v, v.next_to_move, position).board == board_after(ps.push(position)),
{
    assert(ps.push(position).drop_last() =~= ps);
}

/// A move can complete a triple only for the symbol it places: after a
/// legal move on a board that had no winner, the only possible winner is
/// the mover, and completing a line hands the mover the win.
pub proof fn lemma_completed_triple_crowns_mover(b: Seq<Cell>, position: int, s: Symbol)
    requires
        b.len() == 9,
        winner_of(b) is None,
        0 <= position < 9,
        b[position] is Empty,
        has_line(b.update(position, Cell::Occupied(s)), s),
    ensures
        winner_of(b.update(position, Cell::Occupied(s))) == Some(s),
        next_status(b.update(position, Cell::Occupied(s))) == GameStatus::Won(s),
{
    let b2 = b.update(position, Cell::Occupied(s));
    assert forall|a: int, m: int, c: int|
        0 <= a < 9 && 0 <= m < 9 && 0 <= c < 9 && triple_winner(b2, a, m, c) is Some
            && triple_winner(b, a, m, c) is None implies triple_winner(b2, a, m, c) == Some(s) by {
        if a != position && m != position && c != position {
            assert(b2[a] == b[a] && b2[m] == b[m] && b2[c] == b[c]);
        }
    }
}

/// Once the table is terminal — won or drawn — every further move is
/// refused as not ongoing and the session is unchanged, whoever submits
/// it and wherever it aims.
pub proof fn lemma_terminal_refuses_moves(v: SessionView, symbol: Symbol, position: int)
    requires
        v.status matches GameStatus::Won(_) || v.status is Draw,
    ensures
        move_outcome(v, symbol, position) == Err::<(), MoveError>(MoveError::NotOngoing),
        move_target(v, symbol, position) == v,
{
}

/// The mover on turn who completes one of the eight triples wins: the
/// move is accepted, the phase becomes that mover's victory, and no
/// further move is ever accepted.
pub proof fn lemma_winning_move(v: SessionView, position: int)
    requires
        v.inv(),
        v.status is Ongoing,
        0 <= position < 9,
        v.board[position] is Empty,
        has_line(v.board.update(position, Cell::Occupied(v.next_to_move)), v.next_to_move),
    ensures
        move_outcome(v, v.next_to_move, position) is Ok,
        move_target(v, v.next_to_move, position).status == GameStatus::Won(v.next_to_move),
        forall|later_symbol: Symbol, later_position: int|
            move_outcome(move_target(v, v.next_to_move, position), later_symbol, later_position)
                == Err::<(), MoveError>(MoveError::NotOngoing),
{
    lemma_completed_triple_crowns_mover(v.board, position, v.next_to_move);
}

/// A move out of turn is always refused as "not your turn" and leaves
/// the whole session — the board in particular — unchanged.
pub proof fn lemma_wrong_turn_rejected(v: SessionView, symbol: Symbol, position: int)
    requires
        v.status is Ongoing,
        symbol != v.next_to_move,
    ensures
        move_outcome(v, symbol, position) == Err::<(), MoveError>(MoveError::NotYourTurn),
        move_target(v, symbol, position) == v,
{
}

/// A move aimed at a taken cell is always refused as "cell occupied" and
/// leaves the session — the turn holder in particular — unchanged.
pub proof fn lemma_occupied_cell_rejected(v: SessionView, symbol: Symbol, position: int)
    requires
        v.status is Ongoing,
        symbol == v.next_to_move,
        0 <= position < 9,
        v.board[position] !is Empty,
    ensures
        move_outcome(v, symbol, position) == Err::<(), MoveError>(MoveError::CellOccupied),
        move_target(v, symbol, position) == v,
{
}

} // verus!
