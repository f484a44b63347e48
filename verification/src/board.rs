//! The nine-cell board: placement of symbols, fullness, and win detection
//! over the eight fixed winning triples.

use vstd::prelude::*;

verus! {

/// A player's mark: `X` always moves first.
#[derive(Clone, Copy, PartialEq, Eq, Structural, Debug)]
pub enum Symbol {
    X,
    O,
}

impl Symbol {
    /// The opposing symbol.
    pub open spec fn spec_other(self) -> Symbol {
        match self {
            Symbol::X => Symbol::O,
            Symbol::O => Symbol::X,
        }
    }

    #[verifier::when_used_as_spec(spec_other)]
    pub fn other(self) -> (r: Symbol)
        ensures
            r == self.spec_other(),
    {
        match self {
            Symbol::X => Symbol::O,
            Symbol::O => Symbol::X,
        }
    }
}

/// One cell of the grid.
#[derive(Clone, Copy, PartialEq, Eq, Structural, Debug)]
pub enum Cell {
    Empty,
    Occupied(Symbol),
}

/// Why a placement on the board was refused.
#[derive(Clone, Copy, PartialEq, Eq, Structural, Debug)]
pub enum BoardError {
    OutOfRange,
    CellOccupied,
}

/// The board a fresh session starts from: nine empty cells.
pub open spec fn empty_board() -> Seq<Cell> {
    Seq::new(9, |i: int| Cell::Empty)
}

/// Every cell carries a symbol.
pub open spec fn board_full(b: Seq<Cell>) -> bool {
    forall|i: int| 0 <= i < b.len() ==> b[i] !is Empty
}

/// The occupant of the triple `(a, m, c)`, if its three cells agree.
pub open spec fn triple_winner(b: Seq<Cell>, a: int, m: int, c: int) -> Option<Symbol> {
    match b[a] {
        Cell::Empty => None,
        Cell::Occupied(s) => if b[m] == b[a] && b[c] == b[a] {
            Some(s)
        } else {
            None
        },
    }
}

/// The winner of the board, scanning the three rows, the three columns
/// and the two diagonals in that fixed order and returning the first
/// completed triple's occupant.
pub open spec fn winner_of(b: Seq<Cell>) -> Option<Symbol> {
    if triple_winner(b, 0, 1, 2) is Some {
        triple_winner(b, 0, 1, 2)
    } else if triple_winner(b, 3, 4, 5) is Some {
        triple_winner(b, 3, 4, 5)
    } else if triple_winner(b, 6, 7, 8) is Some {
        triple_winner(b, 6, 7, 8)
    } else if triple_winner(b, 0, 3, 6) is Some {
        triple_winner(b, 0, 3, 6)
    } else if triple_winner(b, 1, 4, 7) is Some {
        triple_winner(b, 1, 4, 7)
    } else if triple_winner(b, 2, 5, 8) is Some {
        triple_winner(b, 2, 5, 8)
    } else if triple_winner(b, 0, 4, 8) is Some {
        triple_winner(b, 0, 4, 8)
    } else if triple_winner(b, 2, 4, 6) is Some {
        triple_winner(b, 2, 4, 6)
    } else {
        None
    }
}

/// `s` holds some completed triple on `b`.
pub open spec fn has_line(b: Seq<Cell>, s: Symbol) -> bool {
    ||| triple_winner(b, 0, 1, 2) == Some(s)
    ||| triple_winner(b, 3, 4, 5) == Some(s)
    ||| triple_winner(b, 6, 7, 8) == Some(s)
    ||| triple_winner(b, 0, 3, 6) == Some(s)
    ||| triple_winner(b, 1, 4, 7) == Some(s)
    ||| triple_winner(b, 2, 5, 8) == Some(s)
    ||| triple_winner(b, 0, 4, 8) == Some(s)
    ||| triple_winner(b, 2, 4, 6) == Some(s)
}

/// The grid.  Its cell count is fixed at nine for the life of the value.
pub struct Board {
    cells: Vec<Cell>,
}

impl View for Board {
    type V = Seq<Cell>;

    closed spec fn view(&self) -> Seq<Cell> {
        self.cells@
    }
}

impl Board {
    /// The fixed cell count.
    pub open spec fn wf(&self) -> bool {
        self@.len() == 9
    }

    /// A fresh, empty board.
    pub fn new() -> (b: Board)
        ensures
            b.wf(),
            b@ == empty_board(),
    {
        let mut cells: Vec<Cell> = Vec::new();
        let mut i: usize = 0;
        while i < 9
            invariant
                i <= 9,
                cells@.len() == i,
                forall|j: int| 0 <= j < i ==> cells@[j] is Empty,
            decreases 9 - i,
        {
            cells.push(Cell::Empty);
            i = i + 1;
        }
        proof {
            assert(cells@ =~= empty_board());
        }
        Board { cells }
    }

    /// Read one cell.
    pub fn cell(&self, position: usize) -> (c: Cell)
        requires
            self.wf(),
            position < 9,
        ensures
            c == self@[position as int],
    {
        self.cells[position]
    }

    /// A copy of the cells, row-major.
    pub fn cells(&self) -> (v: Vec<Cell>)
        ensures
            v@ == self@,
    {
        let mut v: Vec<Cell> = Vec::new();
        let mut i: usize = 0;
        while i < self.cells.len()
            invariant
                i <= self.cells@.len(),
                v@ =~= self.cells@.take(i as int),
            decreases self.cells@.len() - i,
        {
            v.push(self.cells[i]);
            i = i + 1;
        }
        proof {
            assert(v@ =~= self@);
        }
        v
    }

    /// Mark `position` with `symbol`: refused when the position is out of
    /// range or the cell is already taken, and the board is then unchanged.
    pub fn apply(&mut self, position: usize, symbol: Symbol) -> (r: Result<(), BoardError>)
        requires
            old(self).wf(),
        ensures
            final(self).wf(),
            r == Err::<(), BoardError>(BoardError::OutOfRange) <==> position >= 9,
            r == Err::<(), BoardError>(BoardError::CellOccupied) <==> position < 9
                && old(self)@[position as int] !is Empty,
            r is Ok <==> position < 9 && old(self)@[position as int] is Empty,
            r is Ok ==> final(self)@ == old(self)@.update(
                position as int,
                Cell::Occupied(symbol),
            ),
            r is Err ==> final(self)@ == old(self)@,
    {
        if position >= 9 {
            return Err(BoardError::OutOfRange);
        }
        match self.cells[position] {
            Cell::Occupied(_) => Err(BoardError::CellOccupied),
            Cell::Empty => {
                self.cells.set(position, Cell::Occupied(symbol));
                Ok(())
            },
        }
    }

    /// Whether every cell is taken.
    pub fn is_full(&self) -> (r: bool)
        requires
            self.wf(),
        ensures
            r == board_full(self@),
    {
        let mut i: usize = 0;
        while i < 9
            invariant
                self.wf(),
                i <= 9,
                forall|j: int| 0 <= j < i ==> self@[j] !is Empty,
            decreases 9 - i,
        {
            if matches!(self.cells[i], Cell::Empty) {
                return false;
            }
            i = i + 1;
        }
        true
    }

    /// The occupant of the triple `(a, m, c)` when its cells agree.
    fn line_winner(&self, a: usize, m: usize, c: usize) -> (r: Option<Symbol>)
        requires
            self.wf(),
            a < 9,
            m < 9,
            c < 9,
        ensures
            r == triple_winner(self@, a as int, m as int, c as int),
    {
        match self.cells[a] {
            Cell::Empty => None,
            Cell::Occupied(s) => {
                if self.cells[m] == self.cells[a] && self.cells[c] == self.cells[a] {
                    Some(s)
                } else {
                    None
                }
            },
        }
    }

    /// Scan the eight winning triples in the fixed order and return the
    /// occupant of the first completed one.
    pub fn winner(&self) -> (r: Option<Symbol>)
        requires
            self.wf(),
        ensures
            r == winner_of(self@),
    {
        let r = self.line_winner(0, 1, 2);
        if r.is_some() {
            return r;
        }
        let r = self.line_winner(3, 4, 5);
        if r.is_some() {
            return r;
        }
        let r = self.line_winner(6, 7, 8);
        if r.is_some() {
            return r;
        }
        let r = self.line_winner(0, 3, 6);
        if r.is_some() {
            return r;
        }
        let r = self.line_winner(1, 4, 7);
        if r.is_some() {
            return r;
        }
        let r = self.line_winner(2, 5, 8);
        if r.is_some() {
            return r;
        }
        let r = self.line_winner(0, 4, 8);
        if r.is_some() {
            return r;
        }
        self.line_winner(2, 4, 6)
    }
}

} // verus!
