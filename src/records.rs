//! The record store: uploading a record under a fresh identifier and
//! deactivating it for good.
use vstd::prelude::*;

use crate::error::ErrorCode;
use crate::events::{HealthRecordDeactivated, HealthRecordUploaded};
use crate::key::Pubkey;
use crate::state::{
    char_len, HealthRecord, RecordCounter, UserVault, MAX_DESCRIPTION_LEN, MAX_FILE_TYPE_LEN,
    MAX_PAYLOAD_LEN, MAX_TITLE_LEN, MAX_VAULT_RECORDS,
};

verus! {

/// A counter ready to issue the first record identifier, 1.
pub fn initialize_record_counter() -> (r: RecordCounter)
    ensures
        r.record_id == 1,
{
    RecordCounter { record_id: 1 }
}

/// The two vaults differ at most in their record indexes.
pub open spec fn same_but_records(a: UserVault, b: UserVault) -> bool {
    &&& a.owner == b.owner
    &&& a.created_at == b.created_at
    &&& a.is_active == b.is_active
    &&& a.name == b.name
    &&& a.age == b.age
}

/// The first check that an upload fails, in the order they are made; `None` when all pass.
pub open spec fn upload_error(
    vault: UserVault,
    next_id: u64,
    owner: Pubkey,
    payload_len: nat,
    mime_type_len: nat,
    description_len: nat,
    title_len: nat,
) -> Option<ErrorCode> {
    if vault.owner != owner {
        Some(ErrorCode::UnauthorizedAccess)
    } else if !vault.is_active {
        Some(ErrorCode::VaultDeactivated)
    } else if payload_len > MAX_PAYLOAD_LEN {
        Some(ErrorCode::RecordTooLarge)
    } else if mime_type_len > MAX_FILE_TYPE_LEN {
        Some(ErrorCode::FileTypeTooLong)
    } else if description_len > MAX_DESCRIPTION_LEN {
        Some(ErrorCode::DescriptionTooLong)
    } else if title_len > MAX_TITLE_LEN {
        Some(ErrorCode::TitleTooLong)
    } else if vault.record_ids@.len() >= MAX_VAULT_RECORDS {
        Some(ErrorCode::MaxRecordsReached)
    } else if next_id == u64::MAX {
        Some(ErrorCode::CounterExhausted)
    } else {
        None
    }
}

/// Stores a new record for `owner` under the counter's next identifier.
///
/// Every bound is checked before anything changes. On success the counter moves
/// on by one, the identifier is appended to the owner's vault, and the record is
/// returned active with an empty access-control list.
pub fn upload_health_record(
    vault: &mut UserVault,
    counter: &mut RecordCounter,
    owner: &Pubkey,
    encrypted_data: Vec<u8>,
    mime_type: String,
    file_size: u64,
    description: String,
    title: String,
    now: i64,
) -> (r: Result<(HealthRecord, HealthRecordUploaded), ErrorCode>)
    requires
        old(vault).wf(),
    ensures
        final(vault).wf(),
        r is Ok <==> upload_error(
            *old(vault),
            old(counter).record_id,
            *owner,
            encrypted_data@.len(),
            mime_type@.len(),
            description@.len(),
            title@.len(),
        ) is None,
        match r {
            Ok((record, ev)) => {
                &&& record.wf()
                &&& record.owner == *owner
                &&& record.record_id == old(counter).record_id
                &&& record.encrypted_data@ == encrypted_data@
                &&& record.created_at == now
                &&& record.access_list@ == Seq::<crate::state::AccessPermission>::empty()
                &&& record.mime_type == mime_type
                &&& record.file_size == file_size
                &&& record.description == description
                &&& record.title == title
                &&& record.is_active
                &&& final(counter).record_id == old(counter).record_id + 1
                &&& final(vault).record_ids@ == old(vault).record_ids@.push(old(counter).record_id)
                &&& same_but_records(*final(vault), *old(vault))
                &&& ev.owner == *owner
                &&& ev.record_id == old(counter).record_id
                &&& ev.timestamp == now
            },
            Err(e) => {
                &&& upload_error(
                    *old(vault),
                    old(counter).record_id,
                    *owner,
                    encrypted_data@.len(),
                    mime_type@.len(),
                    description@.len(),
                    title@.len(),
                ) == Some(e)
                &&& *final(vault) == *old(vault)
                &&& *final(counter) == *old(counter)
            },
        },
{
    if !vault.owner.same(owner) {
        return Err(ErrorCode::UnauthorizedAccess);
    }
    if !vault.is_active {
        return Err(ErrorCode::VaultDeactivated);
    }
    if encrypted_data.len() > MAX_PAYLOAD_LEN {
        return Err(ErrorCode::RecordTooLarge);
    }
    if char_len(&mime_type) > MAX_FILE_TYPE_LEN {
        return Err(ErrorCode::FileTypeTooLong);
    }
    if char_len(&description) > MAX_DESCRIPTION_LEN {
        return Err(ErrorCode::DescriptionTooLong);
    }
    if char_len(&title) > MAX_TITLE_LEN {
        return Err(ErrorCode::TitleTooLong);
    }
    if vault.record_ids.len() >= MAX_VAULT_RECORDS {
        return Err(ErrorCode::MaxRecordsReached);
    }
    if counter.record_id == u64::MAX {
        return Err(ErrorCode::CounterExhausted);
    }
    let record_id = counter.record_id;
    counter.record_id = record_id + 1;
    vault.record_ids.push(record_id);
    let record = HealthRecord {
        owner: *owner,
        record_id,
        encrypted_data,
        created_at: now,
        access_list: Vec::new(),
        mime_type,
        file_size,
        description,
        title,
        is_active: true,
    };
    Ok((record, HealthRecordUploaded { owner: *owner, record_id, timestamp: now }))
}

/// Holds of every identifier but `id`.
pub open spec fn other_than(id: u64) -> spec_fn(u64) -> bool {
    |x: u64| x != id
}

/// `ids` without any occurrence of `id`.
pub open spec fn without_id(ids: Seq<u64>, id: u64) -> Seq<u64> {
    ids.filter(other_than(id))
}

/// A copy of `ids` without any occurrence of `id`.
fn remove_id(ids: &Vec<u64>, id: u64) -> (r: Vec<u64>)
    ensures
        r@ == without_id(ids@, id),
{
    let mut kept: Vec<u64> = Vec::new();
    let mut i: usize = 0;
    while i < ids.len()
        invariant
            0 <= i <= ids@.len(),
            kept@ == without_id(ids@.subrange(0, i as int), id),
        decreases ids@.len() - i,
    {
        proof {
            assert(ids@.subrange(0, i + 1) =~= ids@.subrange(0, i as int).push(ids@[i as int]));
            ids@.subrange(0, i as int).lemma_filter_push(ids@[i as int], other_than(id));
        }
        if ids[i] != id {
            kept.push(ids[i]);
        }
        i = i + 1;
    }
    assert(ids@.subrange(0, ids@.len() as int) =~= ids@);
    kept
}

/// The first check that a deactivation fails, in the order they are made; `None` when all pass.
pub open spec fn deactivate_error(
    vault: UserVault,
    record: HealthRecord,
    owner: Pubkey,
    record_id: u64,
) -> Option<ErrorCode> {
    if vault.owner != owner || record.owner != owner {
        Some(ErrorCode::UnauthorizedAccess)
    } else if record.record_id != record_id {
        Some(ErrorCode::InvalidRecordId)
    } else if !record.is_active {
        Some(ErrorCode::RecordAlreadyDeactivated)
    } else {
        None
    }
}

/// Makes `record` inactive for good and takes its identifier out of the owner's vault.
///
/// The access-control list is kept as it was; an inactive record authorizes nobody.
pub fn deactivate_record(
    vault: &mut UserVault,
    record: &mut HealthRecord,
    owner: &Pubkey,
    record_id: u64,
    now: i64,
) -> (r: Result<HealthRecordDeactivated, ErrorCode>)
    requires
        old(vault).wf(),
        old(record).wf(),
    ensures
        final(vault).wf(),
        final(record).wf(),
        r is Ok <==> deactivate_error(*old(vault), *old(record), *owner, record_id) is None,
        match r {
            Ok(ev) => {
                &&& final(vault).record_ids@ == without_id(old(vault).record_ids@, record_id)
                &&& same_but_records(*final(vault), *old(vault))
                &&& !final(record).is_active
                &&& final(record).access_list@ == old(record).access_list@
                &&& final(record).owner == old(record).owner
                &&& final(record).record_id == old(record).record_id
                &&& final(record).encrypted_data@ == old(record).encrypted_data@
                &&& final(record).created_at == old(record).created_at
                &&& final(record).mime_type == old(record).mime_type
                &&& final(record).file_size == old(record).file_size
                &&& final(record).description == old(record).description
                &&& final(record).title == old(record).title
                &&& ev.owner == *owner
                &&& ev.record_id == record_id
                &&& ev.timestamp == now
            },
            Err(e) => {
                &&& deactivate_error(*old(vault), *old(record), *owner, record_id) == Some(e)
                &&& *final(vault) == *old(vault)
                &&& *final(record) == *old(record)
            },
        },
{
    if !vault.owner.same(owner) || !record.owner.same(owner) {
        return Err(ErrorCode::UnauthorizedAccess);
    }
    if record.record_id != record_id {
        return Err(ErrorCode::InvalidRecordId);
    }
    if !record.is_active {
        return Err(ErrorCode::RecordAlreadyDeactivated);
    }
    let kept = remove_id(&vault.record_ids, record_id);
    proof {
        vault.record_ids@.lemma_filter_len(other_than(record_id));
    }
    vault.record_ids = kept;
    record.is_active = false;
    Ok(HealthRecordDeactivated { owner: *owner, record_id, timestamp: now })
}

} // verus!
