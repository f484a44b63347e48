use tictactoe::board::Symbol;
use tictactoe::client::ClientState;
use tictactoe::client::InputAction;
use tictactoe::client::parse_number;
use tictactoe::session::GameStatus;
use tictactoe::session::Move;

fn ongoing_as_x() -> ClientState {
    let mut st = ClientState::new();
    st.absorb_update(GameStatus::Ongoing, Symbol::X);
    st
}

#[test]
fn fresh_client_knows_nothing() {
    let st = ClientState::new();
    assert_eq!(st.symbol, None);
    assert_eq!(st.status, None);
    assert!(!st.over);
}

#[test]
fn updates_adopt_status_and_symbol() {
    let mut st = ClientState::new();
    st.absorb_update(GameStatus::Waiting, Symbol::X);
    assert_eq!(st.status, Some(GameStatus::Waiting));
    assert_eq!(st.symbol, Some(Symbol::X));
    assert!(!st.over);
    st.absorb_update(GameStatus::Ongoing, Symbol::X);
    assert_eq!(st.status, Some(GameStatus::Ongoing));
    assert!(!st.over);
}

#[test]
fn terminal_update_ends_the_session() {
    let mut st = ongoing_as_x();
    st.absorb_update(GameStatus::Won(Symbol::O), Symbol::X);
    assert_eq!(st.status, Some(GameStatus::Won(Symbol::O)));
    assert!(st.over);
    assert_eq!(st.symbol, Some(Symbol::X));

    let mut st = ongoing_as_x();
    st.absorb_update(GameStatus::Draw, Symbol::X);
    assert!(st.over);
}

#[test]
fn disconnect_marks_the_client_over() {
    let mut st = ongoing_as_x();
    st.mark_disconnected();
    assert!(st.over);
    assert_eq!(st.symbol, Some(Symbol::X));
    assert_eq!(st.decide_input(b"4"), InputAction::GameOver);
}

#[test]
fn exit_word_quits_in_any_case() {
    let st = ongoing_as_x();
    assert_eq!(st.decide_input(b"exit"), InputAction::Quit);
    assert_eq!(st.decide_input(b"EXIT"), InputAction::Quit);
    assert_eq!(st.decide_input(b"Exit"), InputAction::Quit);
    assert_eq!(st.decide_input(b"exIT"), InputAction::Quit);
    assert_ne!(st.decide_input(b"exits"), InputAction::Quit);
}

#[test]
fn game_over_stops_input() {
    let mut st = ongoing_as_x();
    st.absorb_update(GameStatus::Draw, Symbol::X);
    assert_eq!(st.decide_input(b"4"), InputAction::GameOver);
    // An explicit exit still reads as a quit.
    assert_eq!(st.decide_input(b"exit"), InputAction::Quit);
}

#[test]
fn waiting_table_ignores_moves() {
    let mut st = ClientState::new();
    st.absorb_update(GameStatus::Waiting, Symbol::X);
    assert_eq!(st.decide_input(b"4"), InputAction::NotStarted);
}

#[test]
fn a_digit_becomes_a_move() {
    let st = ongoing_as_x();
    assert_eq!(
        st.decide_input(b"4"),
        InputAction::Submit(Move { claimed_symbol: Symbol::X, position: 4 })
    );
    assert_eq!(
        st.decide_input(b"0"),
        InputAction::Submit(Move { claimed_symbol: Symbol::X, position: 0 })
    );
    assert_eq!(
        st.decide_input(b"8"),
        InputAction::Submit(Move { claimed_symbol: Symbol::X, position: 8 })
    );
}

#[test]
fn numbers_off_the_board_are_refused() {
    let st = ongoing_as_x();
    assert_eq!(st.decide_input(b"9"), InputAction::OutOfRange);
    assert_eq!(st.decide_input(b"42"), InputAction::OutOfRange);
}

#[test]
fn non_numbers_are_refused() {
    let st = ongoing_as_x();
    assert_eq!(st.decide_input(b"abc"), InputAction::Unparsable);
    assert_eq!(st.decide_input(b""), InputAction::Unparsable);
    assert_eq!(st.decide_input(b"4a"), InputAction::Unparsable);
    assert_eq!(st.decide_input(b"-1"), InputAction::Unparsable);
    // Too large even for usize: refused as unparsable.
    assert_eq!(
        st.decide_input(b"99999999999999999999999999999999"),
        InputAction::Unparsable
    );
}

#[test]
fn no_symbol_yet_holds_the_move_back() {
    let mut st = ClientState::new();
    // The phase is known to be ongoing but no symbol was ever reported:
    // only a hand-built state reaches this, as updates carry a symbol.
    st.status = Some(GameStatus::Ongoing);
    assert_eq!(st.decide_input(b"4"), InputAction::NoSymbolYet);
}

#[test]
fn parse_number_reads_decimal() {
    assert_eq!(parse_number(b"0"), Some(0));
    assert_eq!(parse_number(b"8"), Some(8));
    assert_eq!(parse_number(b"007"), Some(7));
    assert_eq!(parse_number(b"123"), Some(123));
    assert_eq!(parse_number(b"18446744073709551615"), Some(usize::MAX));
    assert_eq!(parse_number(b"18446744073709551616"), None);
    assert_eq!(parse_number(b""), None);
    assert_eq!(parse_number(b" 4"), None);
    assert_eq!(parse_number(b"1.5"), None);
}
