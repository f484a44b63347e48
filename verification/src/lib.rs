//! A verified referee for two-player tic-tac-toe sessions.
//!
//! The crate models one game table: a nine-cell board, the two player
//! slots, turn order, and outcome detection.  Every state transition
//! (admission, move application, disconnect) is specified and verified;
//! delivery of state snapshots to the participants goes through a
//! best-effort channel push that the transport layer owns.

pub mod board;
pub mod channel;
pub mod client;
pub mod dispatch;
pub mod handler;
pub mod lemmas;
pub mod registry;
pub mod session;
pub mod snapshot;

pub use board::Board;
pub use board::BoardError;
pub use board::Cell;
pub use board::Symbol;
