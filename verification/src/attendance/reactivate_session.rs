//! Giving a session a new window.

use vstd::prelude::*;
use crate::attendance::errors::AttendanceError;
use crate::attendance::state::{Member, Session};

verus! {

/// The accounts of [`reactivate_session`].
#[derive(Clone, Copy, Debug, PartialEq, Eq)]
pub struct ReactivateSession {
    /// The caller's member record.
    pub admin: Member,
    pub session: Session,
}

impl ReactivateSession {
    /// The first rule that a request to reactivate the session breaks, if
    /// it breaks one.
    pub open spec fn rejection(&self, new_start_time: i64, new_late_time: i64) -> Option<
        AttendanceError,
    > {
        match self.admin.admin_refusal() {
            Some(e) => Some(e),
            None => if new_start_time < new_late_time {
                None
            } else {
                Some(AttendanceError::InvalidTimeParameters)
            },
        }
    }

    /// The accounts after the session has been reactivated: it has the new
    /// window, is active, and counts nobody.
    pub open spec fn reactivated(self, new_start_time: i64, new_late_time: i64) -> ReactivateSession {
        ReactivateSession {
            session: Session {
                start_time: new_start_time,
                late_time: new_late_time,
                total_attendees: 0,
                total_late: 0,
                is_active: true,
                ..self.session
            },
            ..self
        }
    }
}

/// Gives the session a new window, opens it for check-ins and sets its
/// counters back to zero.
///
/// The rules, in the order in which they are tested: the caller's member
/// record is active; it has the admin role; `new_start_time` lies before
/// `new_late_time`. A refused call changes nothing.
pub fn reactivate_session(
    accounts: &mut ReactivateSession,
    new_start_time: i64,
    new_late_time: i64,
) -> (done: Result<(), AttendanceError>)
    ensures
        done == match old(accounts).rejection(new_start_time, new_late_time) {
            Some(e) => Err::<(), AttendanceError>(e),
            None => Ok(()),
        },
        done is Ok ==> *final(accounts) == old(accounts).reactivated(new_start_time, new_late_time),
        done is Ok ==> final(accounts).session.well_formed(),
        done is Err ==> *final(accounts) == *old(accounts),
        new_start_time >= new_late_time ==> done is Err,
        new_start_time >= new_late_time && old(accounts).admin.admin_refusal() is None ==> done
            == Err::<(), AttendanceError>(AttendanceError::InvalidTimeParameters),
{
    match accounts.admin.require_admin() {
        Ok(()) => {},
        Err(e) => {
            return Err(e);
        },
    }
    if new_start_time >= new_late_time {
        return Err(AttendanceError::InvalidTimeParameters);
    }
    accounts.session.start_time = new_start_time;
    accounts.session.late_time = new_late_time;
    accounts.session.is_active = true;
    accounts.session.total_attendees = 0;
    accounts.session.total_late = 0;
    Ok(())
}

} // verus!
