//! Stored entities: record counter, identity vault, organization profile,
//! health record and its access-control list.
use vstd::prelude::*;

use crate::key::Pubkey;

verus! {

/// Largest number of entries, live or retired, in one record's access-control list.
pub const MAX_ACCESS_ENTRIES: usize = 100;

/// Largest number of record identifiers in one owner's vault.
pub const MAX_VAULT_RECORDS: usize = 100;

/// Largest encrypted payload, in bytes.
pub const MAX_PAYLOAD_LEN: usize = 1000;

/// Largest file type of a record, in characters.
pub const MAX_FILE_TYPE_LEN: usize = 100;

/// Largest description of a record, in characters.
pub const MAX_DESCRIPTION_LEN: usize = 100;

/// Largest title of a record, in characters.
pub const MAX_TITLE_LEN: usize = 50;

/// Largest display name in an owner's vault, in characters.
pub const MAX_VAULT_NAME_LEN: usize = 50;

/// Largest organization name, in characters.
pub const MAX_ORG_NAME_LEN: usize = 100;

/// Largest organization description, in characters.
pub const MAX_ORG_DESCRIPTION_LEN: usize = 200;

/// Largest organization contact text, in characters.
pub const MAX_CONTACT_INFO_LEN: usize = 200;

/// The process-wide source of record identifiers: the next one to issue.
#[derive(Clone, Copy, Debug, PartialEq, Eq, Structural)]
pub struct RecordCounter {
    pub record_id: u64,
}

/// The source of sequential organization identifiers: the next one to issue.
#[derive(Clone, Copy, Debug, PartialEq, Eq, Structural)]
pub struct OrganizationCounter {
    pub organization_id: u64,
}

/// One grant of read access to an organization.
///
/// `expires_at` is an absolute time; `None` means the grant never expires.
/// A revoked or superseded grant stays in the list with `live == false`.
#[derive(Clone, Copy, Debug, PartialEq, Eq)]
pub struct AccessPermission {
    pub organization: Pubkey,
    pub granted_at: i64,
    pub expires_at: Option<i64>,
    pub live: bool,
}

/// One owner's encrypted record, its metadata and its access-control list.
#[derive(Clone, Debug)]
pub struct HealthRecord {
    pub owner: Pubkey,
    pub record_id: u64,
    pub encrypted_data: Vec<u8>,
    pub created_at: i64,
    pub access_list: Vec<AccessPermission>,
    pub mime_type: String,
    pub file_size: u64,
    pub description: String,
    pub title: String,
    pub is_active: bool,
}

/// One owner's identity: profile fields and the index of the records it owns.
#[derive(Clone, Debug)]
pub struct UserVault {
    pub owner: Pubkey,
    pub record_ids: Vec<u64>,
    pub created_at: i64,
    pub is_active: bool,
    pub name: String,
    pub age: u64,
}

/// An organization that may be granted access, with a cache of the records it can read.
#[derive(Clone, Debug)]
pub struct Organization {
    pub owner: Pubkey,
    pub organization_id: u64,
    pub name: String,
    pub description: String,
    pub contact_info: String,
    pub created_at: i64,
    pub is_active: bool,
    pub record_ids: Vec<u64>,
}

/// Whether `p` grants `org` read access at time `t`: live and not yet expired.
pub open spec fn grants_at(p: AccessPermission, org: Pubkey, t: i64) -> bool {
    &&& p.organization == org
    &&& p.live
    &&& match p.expires_at {
        None => true,
        Some(e) => t < e,
    }
}

/// Whether some entry of `acl` grants `org` read access at time `t`.
pub open spec fn acl_grants(acl: Seq<AccessPermission>, org: Pubkey, t: i64) -> bool {
    exists|i: int| 0 <= i < acl.len() && #[trigger] grants_at(acl[i], org, t)
}

/// A live entry is the latest entry of its organization: every earlier entry of
/// the same organization is retired.
pub open spec fn live_is_latest(acl: Seq<AccessPermission>) -> bool {
    forall|i: int, j: int|
        0 <= i < j < acl.len() && #[trigger] acl[i].organization == #[trigger] acl[j].organization
            ==> !acl[i].live
}

/// `p` with `live` cleared.
pub open spec fn retired(p: AccessPermission) -> AccessPermission {
    AccessPermission {
        organization: p.organization,
        granted_at: p.granted_at,
        expires_at: p.expires_at,
        live: false,
    }
}

/// `acl` with every entry of `org` retired.
pub open spec fn retire_all(acl: Seq<AccessPermission>, org: Pubkey) -> Seq<AccessPermission> {
    acl.map_values(|p: AccessPermission| if p.organization == org { retired(p) } else { p })
}

/// The number of characters of `s`.
pub fn char_len(s: &String) -> (n: usize)
    ensures
        n == s@.len(),
{
    s.as_str().unicode_len()
}

impl HealthRecord {
    /// Bounds of every field and the one-live-grant-per-organization rule.
    pub open spec fn wf(&self) -> bool {
        &&& self.access_list@.len() <= MAX_ACCESS_ENTRIES
        &&& self.encrypted_data@.len() <= MAX_PAYLOAD_LEN
        &&& self.mime_type@.len() <= MAX_FILE_TYPE_LEN
        &&& self.description@.len() <= MAX_DESCRIPTION_LEN
        &&& self.title@.len() <= MAX_TITLE_LEN
        &&& live_is_latest(self.access_list@)
    }

    /// Whether the record may be read by `org` at time `t`.
    pub open spec fn authorizes(&self, org: Pubkey, t: i64) -> bool {
        self.is_active && acl_grants(self.access_list@, org, t)
    }
}

impl HealthRecord {
    /// Checks `wf`, for a record read back from storage.
    pub fn is_well_formed(&self) -> (r: bool)
        ensures
            r == self.wf(),
    {
        if self.access_list.len() > MAX_ACCESS_ENTRIES || self.encrypted_data.len() > MAX_PAYLOAD_LEN
            || char_len(&self.mime_type) > MAX_FILE_TYPE_LEN || char_len(&self.description)
            > MAX_DESCRIPTION_LEN || char_len(&self.title) > MAX_TITLE_LEN {
            return false;
        }
        let mut j: usize = 0;
        while j < self.access_list.len()
            invariant
                0 <= j <= self.access_list@.len(),
                forall|a: int, b: int|
                    0 <= a < b < j && #[trigger] self.access_list@[a].organization == #[trigger] self.access_list@[b].organization
                        ==> !self.access_list@[a].live,
            decreases self.access_list@.len() - j,
        {
            let mut i: usize = 0;
            while i < j
                invariant
                    0 <= i <= j < self.access_list@.len(),
                    forall|a: int, b: int|
                        0 <= a < b < j && #[trigger] self.access_list@[a].organization == #[trigger] self.access_list@[b].organization
                            ==> !self.access_list@[a].live,
                    forall|a: int| 0 <= a < i && self.access_list@[a].organization == self.access_list@[j as int].organization ==> !(#[trigger] self.access_list@[a]).live,
                decreases j - i,
            {
                if self.access_list[i].live && self.access_list[i].organization.same(&self.access_list[j].organization) {
                    assert(self.access_list@[i as int].organization == self.access_list@[j as int].organization);
                    return false;
                }
                i = i + 1;
            }
            j = j + 1;
        }
        true
    }
}

impl UserVault {
    /// The index stays within its ceiling.
    pub open spec fn wf(&self) -> bool {
        &&& self.record_ids@.len() <= MAX_VAULT_RECORDS
        &&& self.name@.len() <= MAX_VAULT_NAME_LEN
    }

    /// Checks `wf`, for a vault read back from storage.
    pub fn is_well_formed(&self) -> (r: bool)
        ensures
            r == self.wf(),
    {
        self.record_ids.len() <= MAX_VAULT_RECORDS && char_len(&self.name) <= MAX_VAULT_NAME_LEN
    }
}

} // verus!
