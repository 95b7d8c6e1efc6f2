//! The attendance service: members, sessions and check-ins.

pub mod errors;
pub mod state;
pub mod initialize_member;
pub mod initialize_session;
pub mod check_in;
pub mod update_session;
pub mod reactivate_session;
pub mod get_stats;
pub mod invariants;
