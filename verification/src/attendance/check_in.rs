//! Checking in to a session.

use vstd::prelude::*;
use anchor_lang::prelude::Pubkey;
use crate::attendance::errors::AttendanceError;
use crate::attendance::state::{AttendanceRecord, AttendanceStatus, Member, Session};
use crate::keys::same_key;

verus! {

/// The points for a check-in in time.
pub const PRESENT_POINTS: u8 = 10;

/// The points for a late check-in.
pub const LATE_POINTS: u8 = 5;

/// The accounts of [`check_in`].
#[derive(Clone, Copy, Debug, PartialEq, Eq)]
pub struct CheckIn {
    /// The caller.
    pub member_wallet: Pubkey,
    /// The member record that is checked in.
    pub member: Member,
    /// The address of the session record.
    pub session_key: Pubkey,
    pub session: Session,
    /// What the store holds at the address derived from the session and the
    /// caller: `None` before the member's first check-in to the session, the
    /// record of that check-in from then on.
    pub attendance_record: Option<AttendanceRecord>,
    /// The bump of that address.
    pub bump: u8,
}

/// How a check-in at time `now` counts for a session with the given window:
/// in time up to and including `start_time`, late after that up to and
/// including `late_time`, not at all later.
pub open spec fn status_at(now: i64, start_time: i64, late_time: i64) -> Option<AttendanceStatus> {
    if now <= start_time {
        Some(AttendanceStatus::Present)
    } else if now <= late_time {
        Some(AttendanceStatus::Late)
    } else {
        None
    }
}

/// The points that a check-in of the given status earns.
pub open spec fn points_for(status: AttendanceStatus) -> u8 {
    match status {
        AttendanceStatus::Present => PRESENT_POINTS,
        AttendanceStatus::Late => LATE_POINTS,
        AttendanceStatus::Absent => 0,
    }
}

impl CheckIn {
    /// The first rule that a check-in at time `now` breaks, if it breaks
    /// one.
    pub open spec fn rejection(&self, now: i64) -> Option<AttendanceError> {
        if self.attendance_record is Some {
            Some(AttendanceError::AlreadyCheckedIn)
        } else if self.member.wallet != self.member_wallet {
            Some(AttendanceError::Unauthorized)
        } else if !self.session.is_active {
            Some(AttendanceError::SessionNotActive)
        } else if !self.member.is_active {
            Some(AttendanceError::MemberNotActive)
        } else if status_at(now, self.session.start_time, self.session.late_time) is None {
            Some(AttendanceError::CheckInTimePassed)
        } else {
            None
        }
    }

    /// The record that a check-in of the given status at time `now` writes.
    pub open spec fn record(&self, status: AttendanceStatus, now: i64) -> AttendanceRecord {
        AttendanceRecord {
            member: self.member.wallet,
            session: self.session_key,
            check_in_time: now,
            status,
            points_earned: points_for(status),
            bump: self.bump,
        }
    }

    /// The accounts after a check-in of the given status at time `now`: the
    /// session counts one attendee more, and one late attendee more if the
    /// check-in is late; the member counts one attendance or one late
    /// attendance more and gains the points; the record is written.
    pub open spec fn checked_in(self, status: AttendanceStatus, now: i64) -> CheckIn {
        let late: int = if status == AttendanceStatus::Late { 1 } else { 0 };
        let present: int = if status == AttendanceStatus::Present { 1 } else { 0 };
        CheckIn {
            member: Member {
                total_attendance: (self.member.total_attendance + present) as u32,
                total_late: (self.member.total_late + late) as u32,
                total_points: (self.member.total_points + points_for(status)) as u64,
                ..self.member
            },
            session: Session {
                total_attendees: (self.session.total_attendees + 1) as u32,
                total_late: (self.session.total_late + late) as u32,
                ..self.session
            },
            attendance_record: Some(self.record(status, now)),
            ..self
        }
    }

    /// The accounts after a call of [`check_in`] at time `now`: as
    /// [`checked_in`](CheckIn::checked_in) says where the call is accepted,
    /// unchanged where it is refused.
    pub open spec fn after(self, now: i64) -> CheckIn {
        match (self.rejection(now), status_at(now, self.session.start_time, self.session.late_time)) {
            (None, Some(status)) => self.checked_in(status, now),
            _ => self,
        }
    }

    /// Whether the counters can take a check-in at time `now`, where one
    /// would be accepted.
    pub open spec fn has_room(&self, now: i64) -> bool {
        self.rejection(now) is None ==> {
            let status = status_at(now, self.session.start_time, self.session.late_time).unwrap();
            &&& self.session.total_attendees < u32::MAX
            &&& self.member.total_points + points_for(status) <= u64::MAX
            &&& status == AttendanceStatus::Present ==> self.member.total_attendance < u32::MAX
            &&& status == AttendanceStatus::Late ==> self.session.total_late < u32::MAX
                && self.member.total_late < u32::MAX
        }
    }
}

/// Computes [`status_at`].
fn classify(now: i64, start_time: i64, late_time: i64) -> (status: Option<AttendanceStatus>)
    ensures
        status == status_at(now, start_time, late_time),
{
    if now <= start_time {
        Some(AttendanceStatus::Present)
    } else if now <= late_time {
        Some(AttendanceStatus::Late)
    } else {
        None
    }
}

/// Tells whether [`check_in`] may be called on these accounts at time
/// `now`: whether the counters that an accepted check-in would raise are
/// all below their limits. It may always be called where it would refuse
/// the check-in.
pub fn room_for_check_in(accounts: &CheckIn, now: i64) -> (room: bool)
    ensures
        room == accounts.has_room(now),
{
    if accounts.attendance_record.is_some() || !same_key(
        &accounts.member.wallet,
        &accounts.member_wallet,
    ) || !accounts.session.is_active || !accounts.member.is_active {
        return true;
    }
    match classify(now, accounts.session.start_time, accounts.session.late_time) {
        Some(AttendanceStatus::Present) => accounts.session.total_attendees < u32::MAX
            && accounts.member.total_attendance < u32::MAX && accounts.member.total_points
            <= u64::MAX - PRESENT_POINTS as u64,
        Some(AttendanceStatus::Late) => accounts.session.total_attendees < u32::MAX
            && accounts.session.total_late < u32::MAX && accounts.member.total_late < u32::MAX
            && accounts.member.total_points <= u64::MAX - LATE_POINTS as u64,
        _ => true,
    }
}

/// Checks the member in to the session at time `now`.
///
/// The rules, in the order in which they are tested: the member has no
/// record for this session yet; the member record is the caller's; the
/// session is active; the member is active; `now` is not after the session's
/// late time. An accepted check-in is `Present` and earns
/// [`PRESENT_POINTS`] up to and including the start time, and is `Late` and
/// earns [`LATE_POINTS`] after it. A refused call changes nothing.
///
/// The counters that an accepted check-in raises must have room for it,
/// which [`room_for_check_in`] tells.
pub fn check_in(accounts: &mut CheckIn, now: i64) -> (done: Result<(), AttendanceError>)
    requires
        old(accounts).has_room(now),
    ensures
        done == match old(accounts).rejection(now) {
            Some(e) => Err::<(), AttendanceError>(e),
            None => Ok(()),
        },
        *final(accounts) == old(accounts).after(now),
        done is Err ==> *final(accounts) == *old(accounts),
{
    if accounts.attendance_record.is_some() {
        return Err(AttendanceError::AlreadyCheckedIn);
    }
    if !same_key(&accounts.member.wallet, &accounts.member_wallet) {
        return Err(AttendanceError::Unauthorized);
    }
    if !accounts.session.is_active {
        return Err(AttendanceError::SessionNotActive);
    }
    if !accounts.member.is_active {
        return Err(AttendanceError::MemberNotActive);
    }
    let status: AttendanceStatus;
    let points: u8;
    match classify(now, accounts.session.start_time, accounts.session.late_time) {
        Some(AttendanceStatus::Present) => {
            accounts.session.total_attendees += 1;
            accounts.member.total_attendance += 1;
            status = AttendanceStatus::Present;
            points = PRESENT_POINTS;
        },
        Some(_) => {
            accounts.session.total_attendees += 1;
            accounts.session.total_late += 1;
            accounts.member.total_late += 1;
            status = AttendanceStatus::Late;
            points = LATE_POINTS;
        },
        None => {
            return Err(AttendanceError::CheckInTimePassed);
        },
    }
    accounts.attendance_record = Some(
        AttendanceRecord {
            member: accounts.member.wallet,
            session: accounts.session_key,
            check_in_time: now,
            status,
            points_earned: points,
            bump: accounts.bump,
        },
    );
    accounts.member.total_points += points as u64;
    Ok(())
}

} // verus!
