use tictactoe::board::Board;
use tictactoe::board::BoardError;
use tictactoe::board::Cell;
use tictactoe::board::Symbol;

#[test]
fn new_board_is_empty_and_not_full() {
    let b = Board::new();
    for i in 0..9 {
        assert_eq!(b.cell(i), Cell::Empty);
    }
    assert!(!b.is_full());
    assert_eq!(b.winner(), None);
}

#[test]
fn apply_marks_the_cell() {
    let mut b = Board::new();
    assert_eq!(b.apply(4, Symbol::X), Ok(()));
    assert_eq!(b.cell(4), Cell::Occupied(Symbol::X));
    for i in 0..9 {
        if i != 4 {
            assert_eq!(b.cell(i), Cell::Empty);
        }
    }
}

#[test]
fn apply_out_of_range_fails() {
    let mut b = Board::new();
    assert_eq!(b.apply(9, Symbol::X), Err(BoardError::OutOfRange));
    assert_eq!(b.apply(usize::MAX, Symbol::X), Err(BoardError::OutOfRange));
    for i in 0..9 {
        assert_eq!(b.cell(i), Cell::Empty);
    }
}

#[test]
fn apply_occupied_cell_fails() {
    let mut b = Board::new();
    assert_eq!(b.apply(0, Symbol::X), Ok(()));
    assert_eq!(b.apply(0, Symbol::O), Err(BoardError::CellOccupied));
    assert_eq!(b.cell(0), Cell::Occupied(Symbol::X));
}

#[test]
fn each_of_the_eight_triples_wins() {
    let triples: [[usize; 3]; 8] = [
        [0, 1, 2],
        [3, 4, 5],
        [6, 7, 8],
        [0, 3, 6],
        [1, 4, 7],
        [2, 5, 8],
        [0, 4, 8],
        [2, 4, 6],
    ];
    for t in triples.iter() {
        let mut b = Board::new();
        // Interleave the opponent on two cells outside the triple, as in
        // an alternating game; two cells can never complete a line.
        let mut others: Vec<usize> = Vec::new();
        for i in 0..9 {
            if !t.contains(&i) {
                others.push(i);
            }
        }
        assert_eq!(b.apply(t[0], Symbol::X), Ok(()));
        assert_eq!(b.apply(others[0], Symbol::O), Ok(()));
        assert_eq!(b.winner(), None);
        assert_eq!(b.apply(t[1], Symbol::X), Ok(()));
        assert_eq!(b.apply(others[1], Symbol::O), Ok(()));
        assert_eq!(b.winner(), None);
        assert_eq!(b.apply(t[2], Symbol::X), Ok(()));
        assert_eq!(b.winner(), Some(Symbol::X));
    }
}

#[test]
fn full_board_without_line_has_no_winner() {
    // X takes 0, 8, 7, 2, 3 and O takes 4, 1, 6, 5: no triple completes.
    let mut b = Board::new();
    let moves: [(usize, Symbol); 9] = [
        (0, Symbol::X),
        (4, Symbol::O),
        (8, Symbol::X),
        (1, Symbol::O),
        (7, Symbol::X),
        (6, Symbol::O),
        (2, Symbol::X),
        (5, Symbol::O),
        (3, Symbol::X),
    ];
    for (pos, sym) in moves.iter() {
        assert_eq!(b.winner(), None);
        assert!(!b.is_full());
        assert_eq!(b.apply(*pos, *sym), Ok(()));
    }
    assert!(b.is_full());
    assert_eq!(b.winner(), None);
}

#[test]
fn cells_returns_the_grid_row_major() {
    let mut b = Board::new();
    b.apply(2, Symbol::O).unwrap();
    let cells = b.cells();
    assert_eq!(cells.len(), 9);
    assert_eq!(cells[2], Cell::Occupied(Symbol::O));
    assert_eq!(cells[0], Cell::Empty);
}

#[test]
fn other_symbol_flips() {
    assert_eq!(Symbol::X.other(), Symbol::O);
    assert_eq!(Symbol::O.other(), Symbol::X);
}
