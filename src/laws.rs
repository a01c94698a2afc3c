//! Properties that hold across operations, proved over their contracts.
use vstd::prelude::*;

use crate::acl::{grant_error, new_grant, revoke_error, same_but_acl, same_but_index};
use crate::error::{ErrorCode, ErrorKind};
use crate::key::Pubkey;
use crate::records::{deactivate_error, upload_error};
use crate::state::{
    HealthRecord, Organization, UserVault, MAX_DESCRIPTION_LEN, MAX_FILE_TYPE_LEN,
    MAX_PAYLOAD_LEN, MAX_TITLE_LEN, MAX_VAULT_RECORDS, retire_all,
};

verus! {

/// In a well-formed record no organization has two live entries. Every operation
/// keeps records well formed, so this holds at every point in time.
pub proof fn lemma_one_live_entry_per_organization(record: HealthRecord, i: int, j: int)
    requires
        record.wf(),
        0 <= i < record.access_list@.len(),
        0 <= j < record.access_list@.len(),
        i != j,
        record.access_list@[i].organization == record.access_list@[j].organization,
    ensures
        !(record.access_list@[i].live && record.access_list@[j].live),
{
}

/// An entry that authorizes an organization in a well-formed record is the most
/// recent entry of that organization.
pub proof fn lemma_latest_entry_decides(record: HealthRecord, org: Pubkey, t: i64, i: int, j: int)
    requires
        record.wf(),
        0 <= i < j < record.access_list@.len(),
        crate::state::grants_at(record.access_list@[i], org, t),
    ensures
        record.access_list@[j].organization != org,
{
}

/// A successful grant authorizes the organization at the time of the grant.
pub proof fn lemma_grant_then_authorized(
    record: HealthRecord,
    organization: Organization,
    owner: Pubkey,
    record_id: u64,
    org_key: Pubkey,
    duration: Option<u64>,
    now: i64,
    after: HealthRecord,
)
    requires
        record.wf(),
        grant_error(record, organization, owner, record_id, org_key, duration, now) is None,
        after.access_list@ == retire_all(record.access_list@, org_key).push(
            new_grant(org_key, now, duration),
        ),
        same_but_acl(after, record),
    ensures
        after.authorizes(org_key, now),
{
    let last = after.access_list@.len() - 1;
    assert(crate::state::grants_at(after.access_list@[last], org_key, now));
}

/// After a successful revocation the organization is authorized at no time, and
/// revoking it once more fails with `AccessNotFound`.
pub proof fn lemma_revoke_then_unauthorized(
    record: HealthRecord,
    organization: Organization,
    owner: Pubkey,
    record_id: u64,
    org_key: Pubkey,
    now: i64,
    after: HealthRecord,
    organization_after: Organization,
    t: i64,
    later: i64,
)
    requires
        record.wf(),
        revoke_error(record, organization, owner, record_id, org_key, now) is None,
        after.access_list@ == retire_all(record.access_list@, org_key),
        same_but_acl(after, record),
        same_but_index(organization_after, organization),
    ensures
        !after.authorizes(org_key, t),
        revoke_error(after, organization_after, owner, record_id, org_key, later)
            == Some(ErrorCode::AccessNotFound),
{
    let s = after.access_list@;
    assert forall|i: int| 0 <= i < s.len() implies !#[trigger] crate::state::grants_at(s[i], org_key, t) by {
        assert(s[i] == retire_all(record.access_list@, org_key)[i]);
    }
    assert forall|i: int| 0 <= i < s.len() implies !#[trigger] crate::state::grants_at(s[i], org_key, later) by {
        assert(s[i] == retire_all(record.access_list@, org_key)[i]);
    }
}

/// A grant for `d` seconds authorizes one second before its expiry and not one
/// second after it.
pub proof fn lemma_grant_expires(
    record: HealthRecord,
    organization: Organization,
    owner: Pubkey,
    record_id: u64,
    org_key: Pubkey,
    d: u64,
    now: i64,
    after: HealthRecord,
)
    requires
        record.wf(),
        grant_error(record, organization, owner, record_id, org_key, Some(d), now) is None,
        after.access_list@ == retire_all(record.access_list@, org_key).push(
            new_grant(org_key, now, Some(d)),
        ),
        same_but_acl(after, record),
        now + d + 1 <= i64::MAX,
    ensures
        after.authorizes(org_key, (now + d - 1) as i64),
        !after.authorizes(org_key, (now + d + 1) as i64),
{
    let s = after.access_list@;
    let last = s.len() - 1;
    assert(crate::state::grants_at(s[last], org_key, (now + d - 1) as i64));
    assert forall|i: int| 0 <= i < s.len() implies !#[trigger] crate::state::grants_at(
        s[i],
        org_key,
        (now + d + 1) as i64,
    ) by {
        if i < last {
            assert(s[i] == retire_all(record.access_list@, org_key)[i]);
        }
    }
}

/// Once a record is deactivated by its owner, a grant, a revocation or another
/// deactivation by that owner fails with a state error; a failed operation
/// leaves the record as it was.
pub proof fn lemma_deactivated_is_terminal(
    vault: UserVault,
    record: HealthRecord,
    owner: Pubkey,
    record_id: u64,
    after: HealthRecord,
    organization: Organization,
    org_key: Pubkey,
    duration: Option<u64>,
    now: i64,
)
    requires
        deactivate_error(vault, record, owner, record_id) is None,
        !after.is_active,
        after.owner == record.owner,
        after.record_id == record.record_id,
    ensures
        grant_error(after, organization, owner, record_id, org_key, duration, now)
            == Some(ErrorCode::RecordDeactivated),
        revoke_error(after, organization, owner, record_id, org_key, now)
            == Some(ErrorCode::RecordDeactivated),
        deactivate_error(vault, after, owner, record_id) == Some(ErrorCode::RecordAlreadyDeactivated),
        ErrorCode::RecordDeactivated.spec_kind() == ErrorKind::State,
        ErrorCode::RecordAlreadyDeactivated.spec_kind() == ErrorKind::State,
{
}

/// An owner whose vault index is full cannot upload: the upload fails with a
/// capacity error.
pub proof fn lemma_full_vault_refuses_upload(
    vault: UserVault,
    next_id: u64,
    owner: Pubkey,
    payload_len: nat,
    mime_type_len: nat,
    description_len: nat,
    title_len: nat,
)
    requires
        vault.owner == owner,
        vault.is_active,
        vault.record_ids@.len() == MAX_VAULT_RECORDS,
        payload_len <= MAX_PAYLOAD_LEN,
        mime_type_len <= MAX_FILE_TYPE_LEN,
        description_len <= MAX_DESCRIPTION_LEN,
        title_len <= MAX_TITLE_LEN,
    ensures
        upload_error(vault, next_id, owner, payload_len, mime_type_len, description_len, title_len)
            == Some(ErrorCode::MaxRecordsReached),
        ErrorCode::MaxRecordsReached.spec_kind() == ErrorKind::Capacity,
{
}

} // verus!
