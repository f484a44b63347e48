//! The admission controller: owns the single game table, decides whether
//! an incoming connection becomes `X`, becomes `O`, or is rejected, and
//! tears the table down when a participant leaves.

use vstd::prelude::*;

use crate::board::Symbol;
use crate::channel::OutboundChannel;
use crate::dispatch;
use crate::session::AdmissionError;
use crate::session::GameSession;
use crate::session::GameStatus;
use crate::session::SessionView;
use crate::session::admit_status;
use crate::session::reset_view;

verus! {

/// Owns the one table this process serves.
pub struct SessionRegistry {
    pub session: GameSession,
}

impl View for SessionRegistry {
    type V = SessionView;

    open spec fn view(&self) -> SessionView {
        self.session@
    }
}

impl SessionRegistry {
    /// Well-formedness of the owned session.
    pub open spec fn wf(&self) -> bool {
        self.session.wf()
    }

    /// A registry with a fresh, empty table.
    pub fn new() -> (r: SessionRegistry)
        ensures
            r.wf(),
            r@ == reset_view(),
    {
        SessionRegistry { session: GameSession::new() }
    }

    /// Admit the incoming connection: assign the free slot (`X` first),
    /// or refuse when the table already has two occupants, leaving the
    /// session untouched.  The newly admitted participant is immediately
    /// sent a snapshot carrying its assigned symbol; when the admission
    /// fills the second slot the game starts and both slots receive the
    /// ongoing state.
    pub fn try_admit(&mut self, outbound: OutboundChannel) -> (r: Result<Symbol, AdmissionError>)
        requires
            old(self).wf(),
        ensures
            final(self).wf(),
            r is Err <==> old(self)@.has_x && old(self)@.has_o,
            r is Err ==> r == Err::<Symbol, AdmissionError>(AdmissionError::TableFull),
            r is Err ==> final(self)@ == old(self)@,
            !old(self)@.has_x ==> r == Ok::<Symbol, AdmissionError>(Symbol::X),
            !old(self)@.has_x ==> final(self)@ == (SessionView {
                has_x: true,
                status: admit_status(true, old(self)@.has_o),
                ..old(self)@
            }),
            old(self)@.has_x && !old(self)@.has_o ==> r == Ok::<Symbol, AdmissionError>(Symbol::O),
            old(self)@.has_x && !old(self)@.has_o ==> final(self)@ == (SessionView {
                has_o: true,
                status: admit_status(true, true),
                ..old(self)@
            }),
    {
        let r = self.session.assign_slot(outbound);
        match &r {
            Ok(symbol) => {
                if matches!(self.session.status, GameStatus::Ongoing) {
                    dispatch::broadcast(&self.session);
                } else {
                    dispatch::send_to(&self.session, *symbol);
                }
            },
            Err(_) => {},
        }
        r
    }

    /// A connection ended, cleanly or not: release its slot and reset the
    /// table to `Waiting` with an empty board and `X` to move.
    pub fn release(&mut self, symbol: Symbol)
        requires
            old(self).wf(),
        ensures
            final(self).wf(),
            final(self)@ == reset_view(),
    {
        self.session.disconnect(symbol);
    }
}

} // verus!
