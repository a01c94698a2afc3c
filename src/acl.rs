//! The access-control engine: grant, revoke and the authorization check over
//! a record's access-control list.
use vstd::prelude::*;

use crate::error::ErrorCode;
use crate::events::{AccessGranted, AccessRevoked, HealthRecordRetrieved};
use crate::key::Pubkey;
use crate::state::{
    AccessPermission, HealthRecord, Organization, MAX_ACCESS_ENTRIES, acl_grants, grants_at,
    live_is_latest, retire_all, retired,
};

verus! {

/// The absolute expiry of a grant made at `now` for `duration` seconds.
pub open spec fn expiry_of(now: i64, duration: Option<u64>) -> Option<i64> {
    match duration {
        None => None,
        Some(d) => Some((now + d) as i64),
    }
}

/// Whether a grant made at `now` for `duration` seconds is well formed: a given
/// duration is positive and its expiry fits in an `i64`.
pub open spec fn duration_valid(now: i64, duration: Option<u64>) -> bool {
    match duration {
        None => true,
        Some(d) => 0 < d && now + d <= i64::MAX,
    }
}

/// The entry that a successful grant appends.
pub open spec fn new_grant(org: Pubkey, now: i64, duration: Option<u64>) -> AccessPermission {
    AccessPermission { organization: org, granted_at: now, expires_at: expiry_of(now, duration), live: true }
}

/// The organization's reverse index after it is granted `record_id`.
pub open spec fn mirrored(ids: Seq<u64>, record_id: u64) -> Seq<u64> {
    if ids.contains(record_id) {
        ids
    } else {
        ids.push(record_id)
    }
}

/// `k` is the first position of `x` in `s`.
pub open spec fn is_first_index(s: Seq<u64>, x: u64, k: int) -> bool {
    &&& 0 <= k < s.len()
    &&& s[k] == x
    &&& forall|m: int| 0 <= m < k ==> s[m] != x
}

/// `t` is `s` with the first occurrence of `x` taken out.
pub open spec fn removes_first(s: Seq<u64>, x: u64, t: Seq<u64>) -> bool {
    exists|k: int| is_first_index(s, x, k) && t == s.remove(k)
}

/// The two records differ at most in their access-control lists.
pub open spec fn same_but_acl(a: HealthRecord, b: HealthRecord) -> bool {
    &&& a.owner == b.owner
    &&& a.record_id == b.record_id
    &&& a.encrypted_data@ == b.encrypted_data@
    &&& a.created_at == b.created_at
    &&& a.mime_type == b.mime_type
    &&& a.file_size == b.file_size
    &&& a.description == b.description
    &&& a.title == b.title
    &&& a.is_active == b.is_active
}

/// The two organizations differ at most in their reverse indexes.
pub open spec fn same_but_index(a: Organization, b: Organization) -> bool {
    &&& a.owner == b.owner
    &&& a.organization_id == b.organization_id
    &&& a.name == b.name
    &&& a.description == b.description
    &&& a.contact_info == b.contact_info
    &&& a.created_at == b.created_at
    &&& a.is_active == b.is_active
}

/// The first check that a grant fails, in the order they are made; `None` when all pass.
pub open spec fn grant_error(
    record: HealthRecord,
    organization: Organization,
    owner: Pubkey,
    record_id: u64,
    org_key: Pubkey,
    duration: Option<u64>,
    now: i64,
) -> Option<ErrorCode> {
    if record.owner != owner {
        Some(ErrorCode::UnauthorizedAccess)
    } else if record.record_id != record_id {
        Some(ErrorCode::InvalidRecordId)
    } else if !record.is_active {
        Some(ErrorCode::RecordDeactivated)
    } else if organization.owner != org_key {
        Some(ErrorCode::InvalidOrganization)
    } else if !organization.is_active {
        Some(ErrorCode::OrganizationDeactivated)
    } else if acl_grants(record.access_list@, org_key, now) {
        Some(ErrorCode::AccessAlreadyGranted)
    } else if record.access_list@.len() >= MAX_ACCESS_ENTRIES {
        Some(ErrorCode::MaxAccessReached)
    } else if !duration_valid(now, duration) {
        Some(ErrorCode::InvalidDuration)
    } else {
        None
    }
}

/// The first check that a revocation fails, in the order they are made; `None` when all pass.
pub open spec fn revoke_error(
    record: HealthRecord,
    organization: Organization,
    owner: Pubkey,
    record_id: u64,
    org_key: Pubkey,
    now: i64,
) -> Option<ErrorCode> {
    if record.owner != owner {
        Some(ErrorCode::UnauthorizedAccess)
    } else if record.record_id != record_id {
        Some(ErrorCode::InvalidRecordId)
    } else if !record.is_active {
        Some(ErrorCode::RecordDeactivated)
    } else if organization.owner != org_key {
        Some(ErrorCode::InvalidOrganization)
    } else if !acl_grants(record.access_list@, org_key, now) {
        Some(ErrorCode::AccessNotFound)
    } else if !organization.record_ids@.contains(record_id) {
        Some(ErrorCode::ReverseIndexMismatch)
    } else {
        None
    }
}

/// Whether one entry grants `org` read access at time `t`.
pub fn permission_grants(p: &AccessPermission, org: &Pubkey, t: i64) -> (r: bool)
    ensures
        r == grants_at(*p, *org, t),
{
    if !p.live || !p.organization.same(org) {
        return false;
    }
    match p.expires_at {
        None => true,
        Some(e) => t < e,
    }
}

/// The position of an entry that grants `org` read access at time `t`, if any.
pub fn find_grant(acl: &Vec<AccessPermission>, org: &Pubkey, t: i64) -> (r: Option<usize>)
    ensures
        match r {
            Some(i) => i < acl@.len() && grants_at(acl@[i as int], *org, t),
            None => !acl_grants(acl@, *org, t),
        },
{
    let mut i: usize = 0;
    while i < acl.len()
        invariant
            0 <= i <= acl@.len(),
            forall|k: int| 0 <= k < i ==> !grants_at(#[trigger] acl@[k], *org, t),
        decreases acl@.len() - i,
    {
        if permission_grants(&acl[i], org, t) {
            return Some(i);
        }
        i = i + 1;
    }
    None
}

/// The first position of `x` in `ids`, if any.
pub fn first_index_of(ids: &Vec<u64>, x: u64) -> (r: Option<usize>)
    ensures
        match r {
            Some(k) => is_first_index(ids@, x, k as int),
            None => !ids@.contains(x),
        },
{
    let mut i: usize = 0;
    while i < ids.len()
        invariant
            0 <= i <= ids@.len(),
            forall|m: int| 0 <= m < i ==> ids@[m] != x,
        decreases ids@.len() - i,
    {
        if ids[i] == x {
            return Some(i);
        }
        i = i + 1;
    }
    None
}

/// Retires every entry of `org`, keeping each in place as history.
fn retire_organization(acl: &mut Vec<AccessPermission>, org: &Pubkey)
    ensures
        final(acl)@ == retire_all(old(acl)@, *org),
{
    let ghost start = acl@;
    let mut i: usize = 0;
    while i < acl.len()
        invariant
            0 <= i <= acl@.len(),
            acl@.len() == start.len(),
            forall|k: int|
                0 <= k < i ==> #[trigger] acl@[k] == (if start[k].organization == *org {
                    retired(start[k])
                } else {
                    start[k]
                }),
            forall|k: int| i <= k < acl@.len() ==> #[trigger] acl@[k] == start[k],
        decreases acl@.len() - i,
    {
        let p = acl[i];
        if p.organization.same(org) {
            acl.set(i, AccessPermission { organization: p.organization, granted_at: p.granted_at, expires_at: p.expires_at, live: false });
        }
        i = i + 1;
    }
    assert(acl@ =~= retire_all(start, *org));
}

/// Retiring every entry of one organization keeps live entries latest.
proof fn lemma_retire_keeps_order(acl: Seq<AccessPermission>, org: Pubkey)
    requires
        live_is_latest(acl),
    ensures
        live_is_latest(retire_all(acl, org)),
        retire_all(acl, org).len() == acl.len(),
        forall|i: int| 0 <= i < acl.len() ==> #[trigger] retire_all(acl, org)[i].organization == acl[i].organization,
        forall|i: int| 0 <= i < acl.len() && acl[i].organization == org ==> !(#[trigger] retire_all(acl, org)[i]).live,
{
    let s = retire_all(acl, org);
    assert forall|i: int, j: int|
        0 <= i < j < s.len() && #[trigger] s[i].organization == #[trigger] s[j].organization
        implies !s[i].live by {
        assert(acl[i].organization == acl[j].organization);
    }
}

/// Whether `organization` may read `record` at time `at_time`: the record is active
/// and one of its live entries for the organization has not expired.
pub fn is_authorized(record: &HealthRecord, organization: &Pubkey, at_time: i64) -> (r: bool)
    ensures
        r == record.authorizes(*organization, at_time),
{
    record.is_active && find_grant(&record.access_list, organization, at_time).is_some()
}

/// Authorizes a read of `record` by `requester` at time `now`: its owner, or an
/// organization that the record authorizes then.
pub fn authorize_retrieval(record: &HealthRecord, requester: &Pubkey, now: i64) -> (r: Result<
    HealthRecordRetrieved,
    ErrorCode,
>)
    ensures
        match r {
            Ok(ev) => {
                &&& record.is_active
                &&& (record.owner == *requester || record.authorizes(*requester, now))
                &&& ev.record_owner == record.owner
                &&& ev.record_id == record.record_id
                &&& ev.requester == *requester
                &&& ev.timestamp == now
            },
            Err(e) => if !record.is_active {
                e == ErrorCode::RecordDeactivated
            } else {
                e == ErrorCode::UnauthorizedAccess && record.owner != *requester
                    && !record.authorizes(*requester, now)
            },
        },
{
    if !record.is_active {
        return Err(ErrorCode::RecordDeactivated);
    }
    if !record.owner.same(requester) && !is_authorized(record, requester, now) {
        return Err(ErrorCode::UnauthorizedAccess);
    }
    Ok(HealthRecordRetrieved {
        record_owner: record.owner,
        record_id: record.record_id,
        requester: *requester,
        timestamp: now,
    })
}

/// Grants `org_key` read access to `record` for `duration` seconds from `now`, or
/// without end when `duration` is `None`.
///
/// Earlier entries of the organization are retired, the new entry is appended,
/// and the record's identifier is added to the organization's reverse index
/// unless it is there already.
pub fn grant_access(
    record: &mut HealthRecord,
    organization: &mut Organization,
    owner: &Pubkey,
    record_id: u64,
    org_key: &Pubkey,
    duration: Option<u64>,
    now: i64,
) -> (r: Result<AccessGranted, ErrorCode>)
    requires
        old(record).wf(),
    ensures
        final(record).wf(),
        r is Ok <==> grant_error(*old(record), *old(organization), *owner, record_id, *org_key, duration, now) is None,
        match r {
            Ok(ev) => {
                &&& final(record).access_list@ == retire_all(old(record).access_list@, *org_key).push(
                    new_grant(*org_key, now, duration),
                )
                &&& same_but_acl(*final(record), *old(record))
                &&& final(record).authorizes(*org_key, now)
                &&& final(organization).record_ids@ == mirrored(old(organization).record_ids@, record_id)
                &&& same_but_index(*final(organization), *old(organization))
                &&& ev.record_owner == *owner
                &&& ev.record_id == record_id
                &&& ev.organization == *org_key
                &&& ev.organization_name == old(organization).name
                &&& ev.expires_at == expiry_of(now, duration)
                &&& ev.timestamp == now
            },
            Err(e) => {
                &&& grant_error(*old(record), *old(organization), *owner, record_id, *org_key, duration, now) == Some(e)
                &&& *final(record) == *old(record)
                &&& *final(organization) == *old(organization)
            },
        },
{
    if !record.owner.same(owner) {
        return Err(ErrorCode::UnauthorizedAccess);
    }
    if record.record_id != record_id {
        return Err(ErrorCode::InvalidRecordId);
    }
    if !record.is_active {
        return Err(ErrorCode::RecordDeactivated);
    }
    if !organization.owner.same(org_key) {
        return Err(ErrorCode::InvalidOrganization);
    }
    if !organization.is_active {
        return Err(ErrorCode::OrganizationDeactivated);
    }
    if find_grant(&record.access_list, org_key, now).is_some() {
        return Err(ErrorCode::AccessAlreadyGranted);
    }
    if record.access_list.len() >= MAX_ACCESS_ENTRIES {
        return Err(ErrorCode::MaxAccessReached);
    }
    let expires_at: Option<i64> = match duration {
        None => None,
        Some(d) => {
            let end: i128 = now as i128 + d as i128;
            if d == 0 || end > i64::MAX as i128 {
                return Err(ErrorCode::InvalidDuration);
            }
            Some(end as i64)
        },
    };
    let already_mirrored = first_index_of(&organization.record_ids, record_id).is_some();

    proof {
        lemma_retire_keeps_order(record.access_list@, *org_key);
    }
    retire_organization(&mut record.access_list, org_key);
    let entry = AccessPermission { organization: *org_key, granted_at: now, expires_at, live: true };
    record.access_list.push(entry);
    if !already_mirrored {
        organization.record_ids.push(record_id);
    }
    proof {
        let s = record.access_list@;
        assert forall|i: int, j: int|
            0 <= i < j < s.len() && #[trigger] s[i].organization == #[trigger] s[j].organization
            implies !s[i].live by {
            if j == s.len() - 1 {
                assert(s[i] == retire_all(old(record).access_list@, *org_key)[i]);
            } else {
                assert(s[i] == retire_all(old(record).access_list@, *org_key)[i]);
                assert(s[j] == retire_all(old(record).access_list@, *org_key)[j]);
            }
        }
        assert(grants_at(s[s.len() - 1], *org_key, now));
    }
    Ok(AccessGranted {
        record_owner: *owner,
        record_id,
        organization: *org_key,
        organization_name: organization.name.clone(),
        expires_at,
        timestamp: now,
    })
}

/// Withdraws `org_key`'s live, unexpired grant on `record`: the entry is retired
/// and kept as history, and the record's identifier leaves the organization's
/// reverse index.
pub fn revoke_access(
    record: &mut HealthRecord,
    organization: &mut Organization,
    owner: &Pubkey,
    record_id: u64,
    org_key: &Pubkey,
    now: i64,
) -> (r: Result<AccessRevoked, ErrorCode>)
    requires
        old(record).wf(),
    ensures
        final(record).wf(),
        r is Ok <==> revoke_error(*old(record), *old(organization), *owner, record_id, *org_key, now) is None,
        match r {
            Ok(ev) => {
                &&& final(record).access_list@ == retire_all(old(record).access_list@, *org_key)
                &&& same_but_acl(*final(record), *old(record))
                &&& forall|t: i64| !final(record).authorizes(*org_key, t)
                &&& removes_first(old(organization).record_ids@, record_id, final(organization).record_ids@)
                &&& same_but_index(*final(organization), *old(organization))
                &&& ev.record_owner == *owner
                &&& ev.record_id == record_id
                &&& ev.organization == *org_key
                &&& ev.timestamp == now
            },
            Err(e) => {
                &&& revoke_error(*old(record), *old(organization), *owner, record_id, *org_key, now) == Some(e)
                &&& *final(record) == *old(record)
                &&& *final(organization) == *old(organization)
            },
        },
{
    if !record.owner.same(owner) {
        return Err(ErrorCode::UnauthorizedAccess);
    }
    if record.record_id != record_id {
        return Err(ErrorCode::InvalidRecordId);
    }
    if !record.is_active {
        return Err(ErrorCode::RecordDeactivated);
    }
    if !organization.owner.same(org_key) {
        return Err(ErrorCode::InvalidOrganization);
    }
    if find_grant(&record.access_list, org_key, now).is_none() {
        return Err(ErrorCode::AccessNotFound);
    }
    let position = match first_index_of(&organization.record_ids, record_id) {
        None => {
            return Err(ErrorCode::ReverseIndexMismatch);
        },
        Some(k) => k,
    };
    proof {
        lemma_retire_keeps_order(record.access_list@, *org_key);
    }
    retire_organization(&mut record.access_list, org_key);
    organization.record_ids.remove(position);
    proof {
        let s = record.access_list@;
        assert forall|t: i64| !record.authorizes(*org_key, t) by {
            assert forall|i: int| 0 <= i < s.len() implies !#[trigger] grants_at(s[i], *org_key, t) by {
                assert(s[i] == retire_all(old(record).access_list@, *org_key)[i]);
            }
        }
    }
    Ok(AccessRevoked { record_owner: *owner, record_id, organization: *org_key, timestamp: now })
}

} // verus!
