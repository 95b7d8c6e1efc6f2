//! The records of the attendance service.

use vstd::prelude::*;
use anchor_lang::prelude::Pubkey;
use crate::attendance::errors::AttendanceError;

verus! {

/// What a member may do.
#[derive(Clone, Copy, Debug, PartialEq, Eq, Structural)]
pub enum MemberRole {
    /// May open and manage sessions.
    Admin,
    /// May check in.
    Member,
}

/// How a member attended a session.
#[derive(Clone, Copy, Debug, PartialEq, Eq, Structural)]
pub enum AttendanceStatus {
    /// Checked in by the start time.
    Present,
    /// Checked in after the start time, by the late time.
    Late,
    /// Did not check in.
    Absent,
}

/// A session that members check in to.
///
/// A session that a handler created or reactivated is
/// [`well_formed`](Session::well_formed), and every handler keeps it so.
#[derive(Clone, Copy, Debug, PartialEq, Eq)]
pub struct Session {
    /// The admin who opened the session.
    pub admin: Pubkey,
    /// The day of the session, in seconds since the Unix epoch.
    pub session_date: i64,
    /// The last instant of a check-in in time.
    pub start_time: i64,
    /// The last instant of a late check-in.
    pub late_time: i64,
    /// How many members checked in, in time or late.
    pub total_attendees: u32,
    /// How many of them were late.
    pub total_late: u32,
    /// Whether the session takes check-ins.
    pub is_active: bool,
    /// The bump of the record's derived address.
    pub bump: u8,
}

impl Session {
    /// The start time lies before the late time.
    pub open spec fn well_formed(&self) -> bool {
        self.start_time < self.late_time
    }
}

/// The record of one member's check-in to one session. Never changed once
/// written.
#[derive(Clone, Copy, Debug, PartialEq, Eq)]
pub struct AttendanceRecord {
    /// The member's wallet.
    pub member: Pubkey,
    /// The address of the session record.
    pub session: Pubkey,
    pub check_in_time: i64,
    pub status: AttendanceStatus,
    /// The points that the check-in earned.
    pub points_earned: u8,
    /// The bump of the record's derived address.
    pub bump: u8,
}

/// A member of the society, one per wallet.
#[derive(Clone, Copy, Debug, PartialEq, Eq)]
pub struct Member {
    pub wallet: Pubkey,
    pub role: MemberRole,
    /// Check-ins in time.
    pub total_attendance: u32,
    /// Late check-ins.
    pub total_late: u32,
    pub total_absence: u32,
    /// The points earned in all check-ins.
    pub total_points: u64,
    pub is_active: bool,
    /// The bump of the record's derived address.
    pub bump: u8,
}

impl Member {
    /// Why the member may not manage sessions, if they may not: an inactive
    /// member is refused first, then one without the admin role.
    pub open spec fn admin_refusal(&self) -> Option<AttendanceError> {
        if !self.is_active {
            Some(AttendanceError::MemberNotActive)
        } else if self.role != MemberRole::Admin {
            Some(AttendanceError::Unauthorized)
        } else {
            None
        }
    }

    /// Lets only an active admin pass.
    pub fn require_admin(&self) -> (passed: Result<(), AttendanceError>)
        ensures
            passed == match self.admin_refusal() {
                Some(e) => Err::<(), AttendanceError>(e),
                None => Ok(()),
            },
    {
        if !self.is_active {
            return Err(AttendanceError::MemberNotActive);
        }
        match self.role {
            MemberRole::Admin => Ok(()),
            MemberRole::Member => Err(AttendanceError::Unauthorized),
        }
    }
}

} // verus!
