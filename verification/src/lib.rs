//! Verified state transitions of two account-based services: an attendance
//! tracker (members, sessions, check-ins, points) and a points marketplace
//! (products, purchases).
//!
//! Every handler works on plain values: the records it reads and changes, the
//! identities of the caller and of the accounts involved, and the current time.
//! Loading and storing the records, verifying signatures, reading the clock and
//! moving tokens are the caller's business.

pub mod keys;
pub mod attendance;
pub mod marketplace;
