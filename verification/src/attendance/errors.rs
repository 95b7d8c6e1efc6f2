//! Failures of the attendance handlers.

use vstd::prelude::*;

verus! {

/// Why an attendance handler refused a call. A refused call changes nothing.
#[derive(Clone, Copy, Debug, PartialEq, Eq, Structural)]
pub enum AttendanceError {
    /// The caller lacks the role or identity that the handler asks for.
    Unauthorized,
    /// The session is closed for check-ins.
    SessionNotActive,
    /// A record of this member for this session exists already.
    AlreadyCheckedIn,
    /// The check-in came after the session's late time.
    CheckInTimePassed,
    /// The start time is not before the late time.
    InvalidTimeParameters,
    /// The member's record is inactive.
    MemberNotActive,
    /// No session is stored where one was looked up.
    SessionNotFound,
}

impl AttendanceError {
    /// The text shown to a user for this failure.
    pub fn message(&self) -> (text: &'static str)
        ensures
            text@ == self.spec_message(),
    {
        match self {
            AttendanceError::Unauthorized => "You are not authorized to perform this action",
            AttendanceError::SessionNotActive => "The session is not active",
            AttendanceError::AlreadyCheckedIn => "You have already checked in for this session",
            AttendanceError::CheckInTimePassed => "The check-in time has passed",
            AttendanceError::InvalidTimeParameters => "Invalid time parameters",
            AttendanceError::MemberNotActive => "Member is not active",
            AttendanceError::SessionNotFound => "Session not found",
        }
    }

    /// The message of each failure, as a sequence of characters.
    pub open spec fn spec_message(&self) -> Seq<char> {
        match self {
            AttendanceError::Unauthorized => "You are not authorized to perform this action"@,
            AttendanceError::SessionNotActive => "The session is not active"@,
            AttendanceError::AlreadyCheckedIn => "You have already checked in for this session"@,
            AttendanceError::CheckInTimePassed => "The check-in time has passed"@,
            AttendanceError::InvalidTimeParameters => "Invalid time parameters"@,
            AttendanceError::MemberNotActive => "Member is not active"@,
            AttendanceError::SessionNotFound => "Session not found"@,
        }
    }
}

} // verus!
