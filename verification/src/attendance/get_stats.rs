//! Reading the counters of a member and of a session.

use vstd::prelude::*;
use anchor_lang::prelude::Pubkey;
use crate::attendance::state::{Member, Session};

verus! {

/// The accounts of [`get_member_stats`].
#[derive(Clone, Copy, Debug, PartialEq, Eq)]
pub struct GetMemberStats {
    pub member: Member,
}

/// The accounts of [`get_session_stats`].
#[derive(Clone, Copy, Debug, PartialEq, Eq)]
pub struct GetSessionStats {
    pub session: Session,
}

/// A member's counters.
#[derive(Clone, Copy, Debug, PartialEq, Eq)]
pub struct MemberStats {
    pub wallet: Pubkey,
    pub total_attendance: u32,
    pub total_late: u32,
    pub total_absence: u32,
    pub total_points: u64,
}

/// A session's counters.
#[derive(Clone, Copy, Debug, PartialEq, Eq, Structural)]
pub struct SessionStats {
    pub session_date: i64,
    pub total_attendees: u32,
    pub total_late: u32,
    pub is_active: bool,
}

/// Reads a member's counters. Changes nothing.
pub fn get_member_stats(accounts: &GetMemberStats) -> (stats: MemberStats)
    ensures
        stats == (MemberStats {
            wallet: accounts.member.wallet,
            total_attendance: accounts.member.total_attendance,
            total_late: accounts.member.total_late,
            total_absence: accounts.member.total_absence,
            total_points: accounts.member.total_points,
        }),
{
    MemberStats {
        wallet: accounts.member.wallet,
        total_attendance: accounts.member.total_attendance,
        total_late: accounts.member.total_late,
        total_absence: accounts.member.total_absence,
        total_points: accounts.member.total_points,
    }
}

/// Reads a session's counters. Changes nothing.
pub fn get_session_stats(accounts: &GetSessionStats) -> (stats: SessionStats)
    ensures
        stats == (SessionStats {
            session_date: accounts.session.session_date,
            total_attendees: accounts.session.total_attendees,
            total_late: accounts.session.total_late,
            is_active: accounts.session.is_active,
        }),
{
    SessionStats {
        session_date: accounts.session.session_date,
        total_attendees: accounts.session.total_attendees,
        total_late: accounts.session.total_late,
        is_active: accounts.session.is_active,
    }
}

} // verus!
