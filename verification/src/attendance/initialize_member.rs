//! Registering a member.

use vstd::prelude::*;
use anchor_lang::prelude::Pubkey;
use crate::attendance::errors::AttendanceError;
use crate::attendance::state::{Member, MemberRole};
use crate::keys::same_key;

verus! {

/// The accounts of [`initialize_member`].
#[derive(Clone, Copy, Debug, PartialEq, Eq)]
pub struct InitializeMember {
    /// The caller.
    pub authority: Pubkey,
    /// The identity that alone may register admins.
    pub admin: Pubkey,
    /// The wallet of the member to register.
    pub member_wallet: Pubkey,
    /// The bump of the new member record's derived address.
    pub bump: u8,
}

impl InitializeMember {
    /// Whether the caller may register a member of the given role: anyone
    /// may register a plain member, only the designated admin an admin.
    pub open spec fn may_register(&self, role: MemberRole) -> bool {
        role == MemberRole::Admin ==> self.authority == self.admin
    }

    /// The record of a newly registered member: active, with nothing
    /// counted yet.
    pub open spec fn registered(&self, role: MemberRole) -> Member {
        Member {
            wallet: self.member_wallet,
            role,
            total_attendance: 0,
            total_late: 0,
            total_absence: 0,
            total_points: 0,
            is_active: true,
            bump: self.bump,
        }
    }
}

/// Registers the wallet as a member of the given role and returns the new
/// record. Fails with `Unauthorized` if the role is `Admin` and the caller
/// is not the designated admin.
pub fn initialize_member(accounts: &InitializeMember, role: MemberRole) -> (created: Result<
    Member,
    AttendanceError,
>)
    ensures
        created == if accounts.may_register(role) {
            Ok::<Member, AttendanceError>(accounts.registered(role))
        } else {
            Err(AttendanceError::Unauthorized)
        },
{
    if role == MemberRole::Admin {
        if !same_key(&accounts.authority, &accounts.admin) {
            return Err(AttendanceError::Unauthorized);
        }
    }
    Ok(
        Member {
            wallet: accounts.member_wallet,
            role,
            total_attendance: 0,
            total_late: 0,
            total_absence: 0,
            total_points: 0,
            is_active: true,
            bump: accounts.bump,
        },
    )
}

} // verus!
