//! What holds of the attendance handlers taken together.

use vstd::prelude::*;
use crate::attendance::check_in::{status_at, CheckIn};
use crate::attendance::errors::AttendanceError;
use crate::attendance::initialize_session::InitializeSession;
use crate::attendance::reactivate_session::ReactivateSession;
use crate::attendance::state::AttendanceStatus;
use crate::attendance::update_session::UpdateSession;

verus! {

/// A window whose start time is not before its late time is never accepted:
/// opening and reactivating a session with one are refused, and a caller who
/// is an active admin is told `InvalidTimeParameters`. Every session that is
/// opened or reactivated is well-formed.
pub proof fn lemma_sessions_get_well_formed_windows(
    opening: InitializeSession,
    reactivating: ReactivateSession,
    session_date: i64,
    start_time: i64,
    late_time: i64,
)
    ensures
        opening.rejection(start_time, late_time) is None ==> opening.opened(
            session_date,
            start_time,
            late_time,
        ).well_formed(),
        reactivating.rejection(start_time, late_time) is None ==> reactivating.reactivated(
            start_time,
            late_time,
        ).session.well_formed(),
        start_time >= late_time ==> opening.rejection(start_time, late_time) is Some
            && reactivating.rejection(start_time, late_time) is Some,
        start_time >= late_time && opening.admin.admin_refusal() is None ==> opening.rejection(
            start_time,
            late_time,
        ) == Some(AttendanceError::InvalidTimeParameters),
        start_time >= late_time && reactivating.admin.admin_refusal() is None
            ==> reactivating.rejection(start_time, late_time) == Some(
            AttendanceError::InvalidTimeParameters,
        ),
{
}

/// Checking in and switching a session on or off leave its window alone, so
/// a well-formed session stays well-formed.
pub proof fn lemma_sessions_stay_well_formed(
    checking_in: CheckIn,
    now: i64,
    switching: UpdateSession,
    is_active: bool,
)
    ensures
        checking_in.session.well_formed() ==> checking_in.after(now).session.well_formed(),
        switching.session.well_formed() ==> switching.switched(is_active).session.well_formed(),
{
}

/// A member checks in to a session once. After an accepted check-in the
/// record of it is in place, and whenever the member tries again the call is
/// refused with `AlreadyCheckedIn` and leaves the record and every counter as
/// the first check-in left them.
pub proof fn lemma_second_check_in_is_refused(accounts: CheckIn, first: i64, second: i64)
    requires
        accounts.rejection(first) is None,
    ensures
        accounts.after(first).attendance_record is Some,
        accounts.after(first).attendance_record.unwrap().member == accounts.member.wallet,
        accounts.after(first).attendance_record.unwrap().session == accounts.session_key,
        accounts.after(first).rejection(second) == Some(AttendanceError::AlreadyCheckedIn),
        accounts.after(first).after(second) == accounts.after(first),
{
}

/// The edges of a well-formed window: a check-in at the start time is in
/// time, one at the late time is late, and one a second after the late time
/// is refused.
pub proof fn lemma_window_edges(start_time: i64, late_time: i64)
    requires
        start_time < late_time,
    ensures
        status_at(start_time, start_time, late_time) == Some(AttendanceStatus::Present),
        status_at(late_time, start_time, late_time) == Some(AttendanceStatus::Late),
        late_time < i64::MAX ==> status_at((late_time + 1) as i64, start_time, late_time) is None,
{
}

} // verus!
