//! Access control and record lifecycle engine for owner-held health records.
//!
//! Each operation takes the stored cells it touches (vault, record, organization,
//! counter), the caller's identity and the current time, checks every condition
//! before it changes anything, and hands back a notification for the audit trail.

pub mod acl;
pub mod error;
pub mod events;
pub mod identity;
pub mod key;
pub mod laws;
pub mod records;
pub mod state;
pub mod tee;
