//! The participant side's decisions: folding the server's snapshots into
//! a small local state, and turning a line of user input into a move,
//! a quit, or a reason to ignore it.  Reading the terminal and the
//! network stream is the caller's business; only plain values enter.

use vstd::prelude::*;

use crate::board::Symbol;
use crate::session::GameStatus;
use crate::session::Move;
use crate::session::is_terminal;

verus! {

/// What a connected participant has learned so far: its assigned symbol,
/// the last phase the server reported, and whether the game is over for
/// this client (terminal phase seen, or the stream is gone).
#[derive(Clone, Copy, PartialEq, Eq, Structural, Debug)]
pub struct ClientState {
    pub symbol: Option<Symbol>,
    pub status: Option<GameStatus>,
    pub over: bool,
}

/// The verdict on one line of user input.
#[derive(Clone, Copy, PartialEq, Eq, Structural, Debug)]
pub enum InputAction {
    /// The user asked to leave: stop reading input.
    Quit,
    /// The game has already ended: stop reading input.
    GameOver,
    /// No opponent yet: the input is ignored.
    NotStarted,
    /// A legal-looking move to submit to the server.
    Submit(Move),
    /// No symbol has been assigned yet: the input is ignored.
    NoSymbolYet,
    /// A number outside the board: the input is ignored.
    OutOfRange,
    /// Not a number at all: the input is ignored.
    Unparsable,
}

/// An ASCII decimal digit.
pub open spec fn is_digit(b: u8) -> bool {
    48 <= b <= 57
}

/// Every byte is a digit.
pub open spec fn all_digits(s: Seq<u8>) -> bool {
    forall|i: int| 0 <= i < s.len() ==> is_digit(#[trigger] s[i])
}

/// The number the digit string denotes, most significant digit first.
pub open spec fn digits_val(s: Seq<u8>) -> int
    decreases s.len(),
{
    if s.len() == 0 {
        0
    } else {
        digits_val(s.drop_last()) * 10 + (s.last() - 48)
    }
}

/// The line is a number a `usize` can hold: nonempty, all digits, and
/// within range.
pub open spec fn parses_to_usize(s: Seq<u8>) -> bool {
    s.len() > 0 && all_digits(s) && digits_val(s) <= usize::MAX
}

/// The byte lowered to its ASCII lower-case form.
pub open spec fn spec_lower(b: u8) -> u8 {
    if 65 <= b <= 90 {
        (b + 32) as u8
    } else {
        b
    }
}

/// The line spells "exit", in any mix of ASCII case.
pub open spec fn is_exit_word(s: Seq<u8>) -> bool {
    &&& s.len() == 4
    &&& spec_lower(s[0]) == 101
    &&& spec_lower(s[1]) == 120
    &&& spec_lower(s[2]) == 105
    &&& spec_lower(s[3]) == 116
}

/// What one line of input leads to, checked in this order: an exit word
/// quits; a finished game quits; a table still waiting ignores the line;
/// then the line must be a number, on the board, and the client must
/// already hold a symbol for the move to go out.
pub open spec fn input_action(state: ClientState, line: Seq<u8>) -> InputAction {
    if is_exit_word(line) {
        InputAction::Quit
    } else if state.over {
        InputAction::GameOver
    } else if state.status == Some(GameStatus::Waiting) {
        InputAction::NotStarted
    } else if !parses_to_usize(line) {
        InputAction::Unparsable
    } else if digits_val(line) >= 9 {
        InputAction::OutOfRange
    } else {
        match state.symbol {
            Some(s) => InputAction::Submit(
                Move { claimed_symbol: s, position: digits_val(line) as usize },
            ),
            None => InputAction::NoSymbolYet,
        }
    }
}

/// A digit string denotes a nonnegative value.
proof fn lemma_digits_val_nonneg(s: Seq<u8>)
    requires
        all_digits(s),
    ensures
        digits_val(s) >= 0,
    decreases s.len(),
{
    if s.len() > 0 {
        assert(all_digits(s.drop_last()));
        lemma_digits_val_nonneg(s.drop_last());
    }
}

/// Any prefix of a digit string denotes at most the whole string's value.
proof fn lemma_digits_val_prefix_le(s: Seq<u8>, i: int)
    requires
        all_digits(s),
        0 <= i <= s.len(),
    ensures
        digits_val(s.take(i)) <= digits_val(s),
    decreases s.len() - i,
{
    if i < s.len() {
        assert(s.take(i + 1).drop_last() =~= s.take(i));
        assert(all_digits(s.take(i)));
        lemma_digits_val_nonneg(s.take(i));
        assert(digits_val(s.take(i + 1)) == digits_val(s.take(i)) * 10 + (s[i] - 48));
        lemma_digits_val_prefix_le(s, i + 1);
    } else {
        assert(s.take(i) =~= s);
    }
}

/// Read the line as a decimal `usize`: `None` exactly when it is empty,
/// holds a non-digit, or denotes a number too large for `usize`.
pub fn parse_number(line: &[u8]) -> (r: Option<usize>)
    ensures
        r is Some <==> parses_to_usize(line@),
        r matches Some(v) ==> v == digits_val(line@),
{
    if line.len() == 0 {
        return None;
    }
    let mut acc: usize = 0;
    let mut i: usize = 0;
    while i < line.len()
        invariant
            0 < line@.len(),
            i <= line@.len(),
            forall|j: int| 0 <= j < i ==> is_digit(#[trigger] line@[j]),
            acc == digits_val(line@.take(i as int)),
        decreases line@.len() - i,
    {
        let b = line[i];
        if b < 48 || b > 57 {
            return None;
        }
        let d = (b - 48) as usize;
        proof {
            assert(line@.take(i + 1).drop_last() =~= line@.take(i as int));
        }
        acc = match acc.checked_mul(10) {
            Some(m) => match m.checked_add(d) {
                Some(v) => v,
                None => {
                    proof {
                        lemma_overflow_means_unparsable(line@, i as int);
                    }
                    return None;
                },
            },
            None => {
                proof {
                    lemma_overflow_means_unparsable(line@, i as int);
                }
                return None;
            },
        };
        i = i + 1;
    }
    proof {
        assert(line@.take(line@.len() as int) =~= line@);
    }
    Some(acc)
}

/// If one more digit already pushes the value past `usize::MAX`, the
/// whole line cannot denote a `usize`.
proof fn lemma_overflow_means_unparsable(s: Seq<u8>, i: int)
    requires
        0 <= i < s.len(),
        is_digit(s[i]),
        digits_val(s.take(i)) * 10 + (s[i] - 48) > usize::MAX,
    ensures
        !parses_to_usize(s),
{
    if all_digits(s) {
        assert(s.take(i + 1).drop_last() =~= s.take(i));
        assert(digits_val(s.take(i + 1)) == digits_val(s.take(i)) * 10 + (s[i] - 48));
        lemma_digits_val_prefix_le(s, i + 1);
    }
}

/// The byte lowered to ASCII lower case.
fn lower(b: u8) -> (r: u8)
    ensures
        r == spec_lower(b),
{
    if b >= 65 && b <= 90 {
        b + 32
    } else {
        b
    }
}

impl ClientState {
    /// Before the first server update: no symbol, no known phase.
    pub fn new() -> (s: ClientState)
        ensures
            s.symbol is None,
            s.status is None,
            !s.over,
    {
        ClientState { symbol: None, status: None, over: false }
    }

    /// Fold one server snapshot into the local state.  A terminal phase
    /// ends the session for this client at once — the symbol field is
    /// then left as it was; otherwise the reported symbol is adopted.
    pub fn absorb_update(&mut self, status: GameStatus, recipient_symbol: Symbol)
        ensures
            final(self).status == Some(status),
            is_terminal(status) ==> final(self).over && final(self).symbol == old(self).symbol,
            !is_terminal(status) ==> final(self).over == old(self).over && final(self).symbol
                == Some(recipient_symbol),
    {
        self.status = Some(status);
        match status {
            GameStatus::Won(_) | GameStatus::Draw => {
                self.over = true;
            },
            GameStatus::Waiting | GameStatus::Ongoing => {
                self.symbol = Some(recipient_symbol);
            },
        }
    }

    /// The stream to the server is gone: no more moves will be accepted.
    pub fn mark_disconnected(&mut self)
        ensures
            final(self).over,
            final(self).symbol == old(self).symbol,
            final(self).status == old(self).status,
    {
        self.over = true;
    }

    /// Judge one line of user input, already trimmed of surrounding
    /// whitespace, against the current state.
    pub fn decide_input(&self, line: &[u8]) -> (a: InputAction)
        ensures
            a == input_action(*self, line@),
    {
        if line.len() == 4 {
            let e = lower(line[0]) == 101 && lower(line[1]) == 120 && lower(line[2]) == 105
                && lower(line[3]) == 116;
            if e {
                return InputAction::Quit;
            }
        }
        if self.over {
            return InputAction::GameOver;
        }
        if matches!(self.status, Some(GameStatus::Waiting)) {
            return InputAction::NotStarted;
        }
        match parse_number(line) {
            None => InputAction::Unparsable,
            Some(position) => {
                if position >= 9 {
                    InputAction::OutOfRange
                } else {
                    match self.symbol {
                        Some(symbol) => InputAction::Submit(
                            Move { claimed_symbol: symbol, position },
                        ),
                        None => InputAction::NoSymbolYet,
                    }
                }
            },
        }
    }
}

} // verus!
