//! Opening a session.

use vstd::prelude::*;
use anchor_lang::prelude::Pubkey;
use crate::attendance::errors::AttendanceError;
use crate::attendance::state::{Member, Session};

verus! {

/// The accounts of [`initialize_session`].
#[derive(Clone, Copy, Debug, PartialEq, Eq)]
pub struct InitializeSession {
    /// The caller.
    pub authority: Pubkey,
    /// The caller's member record.
    pub admin: Member,
    /// The bump of the new session record's derived address.
    pub bump: u8,
}

impl InitializeSession {
    /// The first rule that a request to open a session breaks, if it breaks
    /// one.
    pub open spec fn rejection(&self, start_time: i64, late_time: i64) -> Option<AttendanceError> {
        match self.admin.admin_refusal() {
            Some(e) => Some(e),
            None => if start_time < late_time {
                None
            } else {
                Some(AttendanceError::InvalidTimeParameters)
            },
        }
    }

    /// The record of a newly opened session: active, with nobody counted
    /// yet.
    pub open spec fn opened(&self, session_date: i64, start_time: i64, late_time: i64) -> Session {
        Session {
            admin: self.authority,
            session_date,
            start_time,
            late_time,
            total_attendees: 0,
            total_late: 0,
            is_active: true,
            bump: self.bump,
        }
    }
}

/// Opens a session for the given day and window and returns its record.
///
/// The rules, in the order in which they are tested: the caller's member
/// record is active; it has the admin role; `start_time` lies before
/// `late_time`.
pub fn initialize_session(
    accounts: &InitializeSession,
    session_date: i64,
    start_time: i64,
    late_time: i64,
) -> (created: Result<Session, AttendanceError>)
    ensures
        created == match accounts.rejection(start_time, late_time) {
            Some(e) => Err::<Session, AttendanceError>(e),
            None => Ok(accounts.opened(session_date, start_time, late_time)),
        },
        created matches Ok(session) ==> session.well_formed(),
        start_time >= late_time ==> created is Err,
        start_time >= late_time && accounts.admin.admin_refusal() is None ==> created == Err::<
            Session,
            AttendanceError,
        >(AttendanceError::InvalidTimeParameters),
{
    match accounts.admin.require_admin() {
        Ok(()) => {},
        Err(e) => {
            return Err(e);
        },
    }
    if start_time >= late_time {
        return Err(AttendanceError::InvalidTimeParameters);
    }
    Ok(
        Session {
            admin: accounts.authority,
            session_date,
            start_time,
            late_time,
            total_attendees: 0,
            total_late: 0,
            is_active: true,
            bump: accounts.bump,
        },
    )
}

} // verus!
