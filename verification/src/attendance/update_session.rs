//! Opening and closing a session for check-ins.

use vstd::prelude::*;
use crate::attendance::errors::AttendanceError;
use crate::attendance::state::{Member, Session};

verus! {

/// The accounts of [`update_session_status`].
#[derive(Clone, Copy, Debug, PartialEq, Eq)]
pub struct UpdateSession {
    /// The caller's member record.
    pub admin: Member,
    pub session: Session,
}

impl UpdateSession {
    /// The accounts after the session's switch has been set.
    pub open spec fn switched(self, is_active: bool) -> UpdateSession {
        UpdateSession { session: Session { is_active, ..self.session }, ..self }
    }
}

/// Opens the session for check-ins or closes it, as `is_active` says. Only
/// an active admin may: an inactive caller is refused with
/// `MemberNotActive`, an active one without the admin role with
/// `Unauthorized`. A refused call changes nothing.
pub fn update_session_status(accounts: &mut UpdateSession, is_active: bool) -> (done: Result<
    (),
    AttendanceError,
>)
    ensures
        done == match old(accounts).admin.admin_refusal() {
            Some(e) => Err::<(), AttendanceError>(e),
            None => Ok(()),
        },
        done is Ok ==> *final(accounts) == old(accounts).switched(is_active),
        done is Err ==> *final(accounts) == *old(accounts),
{
    match accounts.admin.require_admin() {
        Ok(()) => {},
        Err(e) => {
            return Err(e);
        },
    }
    accounts.session.is_active = is_active;
    Ok(())
}

} // verus!
