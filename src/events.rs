//! Notifications that operations hand back for the audit trail.
use vstd::prelude::*;

use crate::key::Pubkey;

verus! {

/// An owner's vault was created.
#[derive(Clone, Debug)]
pub struct UserRegistered {
    pub owner: Pubkey,
    pub timestamp: i64,
}

/// A record was stored under a fresh identifier.
#[derive(Clone, Debug)]
pub struct HealthRecordUploaded {
    pub owner: Pubkey,
    pub record_id: u64,
    pub timestamp: i64,
}

/// An organization was granted read access to a record.
#[derive(Clone, Debug)]
pub struct AccessGranted {
    pub record_owner: Pubkey,
    pub record_id: u64,
    pub organization: Pubkey,
    pub organization_name: String,
    pub expires_at: Option<i64>,
    pub timestamp: i64,
}

/// An organization's read access to a record was withdrawn.
#[derive(Clone, Debug)]
pub struct AccessRevoked {
    pub record_owner: Pubkey,
    pub record_id: u64,
    pub organization: Pubkey,
    pub timestamp: i64,
}

/// A read of a record was authorized.
#[derive(Clone, Debug)]
pub struct HealthRecordRetrieved {
    pub record_owner: Pubkey,
    pub record_id: u64,
    pub requester: Pubkey,
    pub timestamp: i64,
}

/// A record was made inactive for good.
#[derive(Clone, Debug)]
pub struct HealthRecordDeactivated {
    pub owner: Pubkey,
    pub record_id: u64,
    pub timestamp: i64,
}

/// An organization profile was created.
#[derive(Clone, Debug)]
pub struct OrganizationRegistered {
    pub owner: Pubkey,
    pub organization_id: u64,
    pub name: String,
    pub timestamp: i64,
}

} // verus!
