//! The identity registry: owner vaults and organization profiles.
use vstd::prelude::*;

use crate::error::ErrorCode;
use crate::events::{OrganizationRegistered, UserRegistered};
use crate::key::Pubkey;
use crate::state::{
    char_len, Organization, OrganizationCounter, UserVault, MAX_CONTACT_INFO_LEN, MAX_ORG_DESCRIPTION_LEN,
    MAX_ORG_NAME_LEN, MAX_VAULT_NAME_LEN,
};

verus! {

/// Creates `owner`'s vault in the empty `slot`, active and with an empty index.
///
/// Registration is explicit and happens once: a slot that already holds a vault
/// is refused, whether that vault is active or not.
pub fn register_user(slot: &mut Option<UserVault>, owner: &Pubkey, now: i64) -> (r: Result<
    UserRegistered,
    ErrorCode,
>)
    ensures
        r is Ok <==> *old(slot) is None,
        match r {
            Ok(ev) => {
                &&& *final(slot) is Some
                &&& (*final(slot))->0.wf()
                &&& (*final(slot))->0.owner == *owner
                &&& (*final(slot))->0.record_ids@ == Seq::<u64>::empty()
                &&& (*final(slot))->0.created_at == now
                &&& (*final(slot))->0.is_active
                &&& (*final(slot))->0.name@ == Seq::<char>::empty()
                &&& (*final(slot))->0.age == 0
                &&& ev.owner == *owner
                &&& ev.timestamp == now
            },
            Err(e) => e == ErrorCode::VaultAlreadyRegistered && *final(slot) == *old(slot),
        },
{
    if slot.is_some() {
        return Err(ErrorCode::VaultAlreadyRegistered);
    }
    *slot = Some(
        UserVault {
            owner: *owner,
            record_ids: Vec::new(),
            created_at: now,
            is_active: true,
            name: String::new(),
            age: 0,
        },
    );
    Ok(UserRegistered { owner: *owner, timestamp: now })
}

/// The first check that a profile update fails; `None` when all pass.
pub open spec fn update_vault_error(vault: UserVault, owner: Pubkey, name: Option<String>) -> Option<
    ErrorCode,
> {
    if vault.owner != owner {
        Some(ErrorCode::UnauthorizedAccess)
    } else if name is Some && name->0@.len() > MAX_VAULT_NAME_LEN {
        Some(ErrorCode::NameTooLong)
    } else {
        None
    }
}

/// Updates the profile fields that are given: the active flag, the name, the age.
///
/// The owner, the creation time and the record index never change here.
pub fn update_user_vault(
    vault: &mut UserVault,
    owner: &Pubkey,
    is_active: Option<bool>,
    name: Option<String>,
    age: Option<u64>,
) -> (r: Result<(), ErrorCode>)
    requires
        old(vault).wf(),
    ensures
        final(vault).wf(),
        r is Ok <==> update_vault_error(*old(vault), *owner, name) is None,
        match r {
            Ok(()) => {
                &&& final(vault).owner == old(vault).owner
                &&& final(vault).created_at == old(vault).created_at
                &&& final(vault).record_ids@ == old(vault).record_ids@
                &&& final(vault).is_active == match is_active {
                    Some(b) => b,
                    None => old(vault).is_active,
                }
                &&& final(vault).name == match name {
                    Some(n) => n,
                    None => old(vault).name,
                }
                &&& final(vault).age == match age {
                    Some(a) => a,
                    None => old(vault).age,
                }
            },
            Err(e) => {
                &&& update_vault_error(*old(vault), *owner, name) == Some(e)
                &&& *final(vault) == *old(vault)
            },
        },
{
    if !vault.owner.same(owner) {
        return Err(ErrorCode::UnauthorizedAccess);
    }
    match &name {
        Some(n) => {
            if char_len(n) > MAX_VAULT_NAME_LEN {
                return Err(ErrorCode::NameTooLong);
            }
        },
        None => {},
    }
    match is_active {
        Some(b) => {
            vault.is_active = b;
        },
        None => {},
    }
    match name {
        Some(n) => {
            vault.name = n;
        },
        None => {},
    }
    match age {
        Some(a) => {
            vault.age = a;
        },
        None => {},
    }
    Ok(())
}

/// A counter ready to issue the first organization identifier, 1.
pub fn initialize_organization_counter() -> (r: OrganizationCounter)
    ensures
        r.organization_id == 1,
{
    OrganizationCounter { organization_id: 1 }
}

/// The first check that an organization registration fails; `None` when all pass.
pub open spec fn register_organization_error(
    slot: Option<Organization>,
    next_id: u64,
    name_len: nat,
    description_len: nat,
    contact_info_len: nat,
) -> Option<ErrorCode> {
    if slot is Some {
        Some(ErrorCode::OrganizationAlreadyRegistered)
    } else if name_len > MAX_ORG_NAME_LEN {
        Some(ErrorCode::NameTooLong)
    } else if description_len > MAX_ORG_DESCRIPTION_LEN {
        Some(ErrorCode::DescriptionTooLong)
    } else if contact_info_len > MAX_CONTACT_INFO_LEN {
        Some(ErrorCode::ContactInfoTooLong)
    } else if next_id == u64::MAX {
        Some(ErrorCode::CounterExhausted)
    } else {
        None
    }
}

/// Creates `owner`'s organization profile in the empty `slot`, active, with the
/// counter's next identifier and an empty reverse index.
pub fn register_organization(
    slot: &mut Option<Organization>,
    counter: &mut OrganizationCounter,
    owner: &Pubkey,
    name: String,
    description: String,
    contact_info: String,
    now: i64,
) -> (r: Result<OrganizationRegistered, ErrorCode>)
    ensures
        r is Ok <==> register_organization_error(
            *old(slot),
            old(counter).organization_id,
            name@.len(),
            description@.len(),
            contact_info@.len(),
        ) is None,
        match r {
            Ok(ev) => {
                &&& *final(slot) is Some
                &&& (*final(slot))->0.owner == *owner
                &&& (*final(slot))->0.organization_id == old(counter).organization_id
                &&& (*final(slot))->0.name == name
                &&& (*final(slot))->0.description == description
                &&& (*final(slot))->0.contact_info == contact_info
                &&& (*final(slot))->0.created_at == now
                &&& (*final(slot))->0.is_active
                &&& (*final(slot))->0.record_ids@ == Seq::<u64>::empty()
                &&& final(counter).organization_id == old(counter).organization_id + 1
                &&& ev.owner == *owner
                &&& ev.organization_id == old(counter).organization_id
                &&& ev.name == name
                &&& ev.timestamp == now
            },
            Err(e) => {
                &&& register_organization_error(
                    *old(slot),
                    old(counter).organization_id,
                    name@.len(),
                    description@.len(),
                    contact_info@.len(),
                ) == Some(e)
                &&& *final(slot) == *old(slot)
                &&& *final(counter) == *old(counter)
            },
        },
{
    if slot.is_some() {
        return Err(ErrorCode::OrganizationAlreadyRegistered);
    }
    if char_len(&name) > MAX_ORG_NAME_LEN {
        return Err(ErrorCode::NameTooLong);
    }
    if char_len(&description) > MAX_ORG_DESCRIPTION_LEN {
        return Err(ErrorCode::DescriptionTooLong);
    }
    if char_len(&contact_info) > MAX_CONTACT_INFO_LEN {
        return Err(ErrorCode::ContactInfoTooLong);
    }
    if counter.organization_id == u64::MAX {
        return Err(ErrorCode::CounterExhausted);
    }
    let organization_id = counter.organization_id;
    counter.organization_id = organization_id + 1;
    let event_name = name.clone();
    *slot = Some(
        Organization {
            owner: *owner,
            organization_id,
            name,
            description,
            contact_info,
            created_at: now,
            is_active: true,
            record_ids: Vec::new(),
        },
    );
    Ok(OrganizationRegistered { owner: *owner, organization_id, name: event_name, timestamp: now })
}

/// Turns an organization's profile on or off; only its owner may.
///
/// An inactive organization cannot be granted access; existing grants stay as they are.
pub fn update_organization(organization: &mut Organization, owner: &Pubkey, is_active: bool) -> (r:
    Result<(), ErrorCode>)
    ensures
        r is Ok <==> old(organization).owner == *owner,
        match r {
            Ok(()) => *final(organization) == (Organization { is_active, ..*old(organization) }),
            Err(e) => e == ErrorCode::UnauthorizedAccess && *final(organization) == *old(organization),
        },
{
    if !organization.owner.same(owner) {
        return Err(ErrorCode::UnauthorizedAccess);
    }
    organization.is_active = is_active;
    Ok(())
}

} // verus!
