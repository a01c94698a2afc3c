use healthlock::acl::{authorize_retrieval, grant_access, is_authorized, revoke_access};
use healthlock::error::{ErrorCode, ErrorKind};
use healthlock::identity::{
    initialize_organization_counter, register_organization, register_user, update_organization,
    update_user_vault,
};
use healthlock::key::Pubkey;
use healthlock::records::{deactivate_record, initialize_record_counter, upload_health_record};
use healthlock::state::{
    AccessPermission, HealthRecord, Organization, OrganizationCounter, RecordCounter, UserVault,
};
use healthlock::tee::{register_tee_node, TEEState};

fn key(b: u8) -> Pubkey {
    Pubkey::new([b; 32])
}

fn new_vault(owner: &Pubkey, now: i64) -> UserVault {
    let mut slot = None;
    register_user(&mut slot, owner, now).unwrap();
    slot.unwrap()
}

fn new_org(owner: &Pubkey, counter: &mut OrganizationCounter, now: i64) -> Organization {
    let mut slot = None;
    register_organization(
        &mut slot,
        counter,
        owner,
        "Clinic".to_string(),
        "General practice".to_string(),
        "desk@clinic.example".to_string(),
        now,
    )
    .unwrap();
    slot.unwrap()
}

fn upload(vault: &mut UserVault, counter: &mut RecordCounter, owner: &Pubkey, now: i64) -> Result<HealthRecord, ErrorCode> {
    upload_health_record(
        vault,
        counter,
        owner,
        vec![0xAB; 50],
        "application/pdf".to_string(),
        50,
        "blood panel".to_string(),
        "Lab results".to_string(),
        now,
    )
    .map(|(record, _)| record)
}

struct World {
    owner: Pubkey,
    org_key: Pubkey,
    vault: UserVault,
    counter: RecordCounter,
    org: Organization,
    record: HealthRecord,
}

fn world() -> World {
    let owner = key(1);
    let org_key = key(2);
    let mut vault = new_vault(&owner, 100);
    let mut counter = initialize_record_counter();
    let mut org_counter = initialize_organization_counter();
    let org = new_org(&org_key, &mut org_counter, 100);
    let record = upload(&mut vault, &mut counter, &owner, 100).unwrap();
    World { owner, org_key, vault, counter, org, record }
}

fn live_entries(acl: &[AccessPermission], org: &Pubkey) -> usize {
    acl.iter().filter(|p| p.live && p.organization == *org).count()
}

#[test]
fn scenario_register_upload_grant_revoke_deactivate() {
    let owner = key(1);
    let a = key(2);
    let b = key(3);
    let mut vault = new_vault(&owner, 1_000);
    let mut counter = initialize_record_counter();
    let mut org_counter = initialize_organization_counter();
    let mut org_a = new_org(&a, &mut org_counter, 1_000);
    let mut org_b = new_org(&b, &mut org_counter, 1_000);

    let mut record = upload(&mut vault, &mut counter, &owner, 1_000).unwrap();
    assert_eq!(record.record_id, 1);
    assert_eq!(record.encrypted_data.len(), 50);
    assert_eq!(vault.record_ids, vec![1]);

    let now = 1_000;
    let ev = grant_access(&mut record, &mut org_a, &owner, 1, &a, Some(3600), now).unwrap();
    assert_eq!(ev.expires_at, Some(4_600));
    assert!(is_authorized(&record, &a, now));
    assert!(!is_authorized(&record, &a, now + 3601));

    revoke_access(&mut record, &mut org_a, &owner, 1, &a, now + 10).unwrap();
    assert!(!is_authorized(&record, &a, now + 10));

    deactivate_record(&mut vault, &mut record, &owner, 1, now + 20).unwrap();
    let err = grant_access(&mut record, &mut org_b, &owner, 1, &b, None, now + 30).unwrap_err();
    assert_eq!(err, ErrorCode::RecordDeactivated);
    assert_eq!(err.kind(), ErrorKind::State);
}

#[test]
fn grant_then_authorized_now() {
    let mut w = world();
    let ev = grant_access(&mut w.record, &mut w.org, &w.owner, 1, &w.org_key, None, 500).unwrap();
    assert!(is_authorized(&w.record, &w.org_key, 500));
    assert!(is_authorized(&w.record, &w.org_key, i64::MAX));
    assert!(!is_authorized(&w.record, &key(9), 500));
    assert_eq!(ev.organization_name, "Clinic");
    assert_eq!(ev.expires_at, None);
    assert_eq!(ev.record_id, 1);
    assert_eq!(w.org.record_ids, vec![1]);
    assert_eq!(w.record.access_list.len(), 1);
    assert_eq!(w.record.access_list[0].granted_at, 500);
}

#[test]
fn revoke_then_unauthorized_and_second_revoke_not_found() {
    let mut w = world();
    grant_access(&mut w.record, &mut w.org, &w.owner, 1, &w.org_key, Some(100), 500).unwrap();
    let ev = revoke_access(&mut w.record, &mut w.org, &w.owner, 1, &w.org_key, 510).unwrap();
    assert_eq!(ev.organization, w.org_key);
    assert!(!is_authorized(&w.record, &w.org_key, 510));
    assert!(!is_authorized(&w.record, &w.org_key, 500));
    assert!(w.org.record_ids.is_empty());
    assert_eq!(w.record.access_list.len(), 1);
    assert!(!w.record.access_list[0].live);
    let err = revoke_access(&mut w.record, &mut w.org, &w.owner, 1, &w.org_key, 511).unwrap_err();
    assert_eq!(err, ErrorCode::AccessNotFound);
    assert_eq!(err.kind(), ErrorKind::NotFound);
}

#[test]
fn grant_expires_after_duration() {
    let mut w = world();
    grant_access(&mut w.record, &mut w.org, &w.owner, 1, &w.org_key, Some(10), 1_000).unwrap();
    assert!(is_authorized(&w.record, &w.org_key, 1_009));
    assert!(!is_authorized(&w.record, &w.org_key, 1_010));
    assert!(!is_authorized(&w.record, &w.org_key, 1_011));
}

#[test]
fn expired_grant_cannot_be_revoked_but_can_be_renewed() {
    let mut w = world();
    grant_access(&mut w.record, &mut w.org, &w.owner, 1, &w.org_key, Some(10), 1_000).unwrap();
    let err = revoke_access(&mut w.record, &mut w.org, &w.owner, 1, &w.org_key, 1_020).unwrap_err();
    assert_eq!(err, ErrorCode::AccessNotFound);
    grant_access(&mut w.record, &mut w.org, &w.owner, 1, &w.org_key, None, 1_030).unwrap();
    assert_eq!(w.record.access_list.len(), 2);
    assert_eq!(live_entries(&w.record.access_list, &w.org_key), 1);
    assert!(w.record.access_list[1].live);
    assert!(is_authorized(&w.record, &w.org_key, 5_000));
    assert_eq!(w.org.record_ids, vec![1]);
}

#[test]
fn at_most_one_live_entry_per_organization() {
    let mut w = world();
    let mut org_counter = initialize_organization_counter();
    let other_key = key(5);
    let mut other = new_org(&other_key, &mut org_counter, 0);
    for round in 0..5 {
        let t = 2_000 + round * 100;
        grant_access(&mut w.record, &mut w.org, &w.owner, 1, &w.org_key, Some(50), t).unwrap();
        grant_access(&mut w.record, &mut other, &w.owner, 1, &other_key, None, t).unwrap();
        assert!(live_entries(&w.record.access_list, &w.org_key) <= 1);
        assert_eq!(live_entries(&w.record.access_list, &other_key), 1);
        revoke_access(&mut w.record, &mut other, &w.owner, 1, &other_key, t + 1).unwrap();
        assert_eq!(live_entries(&w.record.access_list, &other_key), 0);
    }
    assert_eq!(w.record.access_list.len(), 10);
    assert_eq!(live_entries(&w.record.access_list, &w.org_key), 1);
}

#[test]
fn deactivated_record_refuses_every_change() {
    let mut w = world();
    grant_access(&mut w.record, &mut w.org, &w.owner, 1, &w.org_key, None, 500).unwrap();
    let ev = deactivate_record(&mut w.vault, &mut w.record, &w.owner, 1, 600).unwrap();
    assert_eq!(ev.record_id, 1);
    assert!(!w.record.is_active);
    assert!(w.vault.record_ids.is_empty());
    assert!(!is_authorized(&w.record, &w.org_key, 600));
    let before = w.record.access_list.clone();

    let e1 = grant_access(&mut w.record, &mut w.org, &w.owner, 1, &key(7), None, 700).unwrap_err();
    let e2 = revoke_access(&mut w.record, &mut w.org, &w.owner, 1, &w.org_key, 700).unwrap_err();
    let e3 = deactivate_record(&mut w.vault, &mut w.record, &w.owner, 1, 700).unwrap_err();
    assert_eq!(e1, ErrorCode::RecordDeactivated);
    assert_eq!(e2, ErrorCode::RecordDeactivated);
    assert_eq!(e3, ErrorCode::RecordAlreadyDeactivated);
    for e in [e1, e2, e3] {
        assert_eq!(e.kind(), ErrorKind::State);
    }
    assert_eq!(w.record.access_list, before);
}

#[test]
fn full_vault_refuses_upload_and_keeps_counter() {
    let owner = key(1);
    let mut vault = new_vault(&owner, 0);
    let mut counter = initialize_record_counter();
    for i in 0..100u64 {
        let record = upload(&mut vault, &mut counter, &owner, 0).unwrap();
        assert_eq!(record.record_id, i + 1);
    }
    assert_eq!(vault.record_ids.len(), 100);
    assert_eq!(counter.record_id, 101);
    let err = upload(&mut vault, &mut counter, &owner, 0).unwrap_err();
    assert_eq!(err, ErrorCode::MaxRecordsReached);
    assert_eq!(err.kind(), ErrorKind::Capacity);
    assert_eq!(counter.record_id, 101);
    assert_eq!(vault.record_ids.len(), 100);
}

#[test]
fn record_ids_are_never_reused() {
    let owner = key(1);
    let mut vault = new_vault(&owner, 0);
    let mut counter = initialize_record_counter();
    let mut first = upload(&mut vault, &mut counter, &owner, 0).unwrap();
    deactivate_record(&mut vault, &mut first, &owner, 1, 1).unwrap();
    let second = upload(&mut vault, &mut counter, &owner, 2).unwrap();
    assert_eq!(second.record_id, 2);
    assert_eq!(vault.record_ids, vec![2]);
}

#[test]
fn grant_errors() {
    let mut w = world();
    let stranger = key(9);
    let e = grant_access(&mut w.record, &mut w.org, &stranger, 1, &w.org_key, None, 0).unwrap_err();
    assert_eq!(e, ErrorCode::UnauthorizedAccess);
    assert_eq!(e.kind(), ErrorKind::Authorization);
    let e = grant_access(&mut w.record, &mut w.org, &w.owner, 2, &w.org_key, None, 0).unwrap_err();
    assert_eq!(e, ErrorCode::InvalidRecordId);
    let e = grant_access(&mut w.record, &mut w.org, &w.owner, 1, &stranger, None, 0).unwrap_err();
    assert_eq!(e, ErrorCode::InvalidOrganization);
    let e = grant_access(&mut w.record, &mut w.org, &w.owner, 1, &w.org_key, Some(0), 0).unwrap_err();
    assert_eq!(e, ErrorCode::InvalidDuration);
    assert_eq!(e.kind(), ErrorKind::Validation);
    let e = grant_access(&mut w.record, &mut w.org, &w.owner, 1, &w.org_key, Some(2), i64::MAX - 1).unwrap_err();
    assert_eq!(e, ErrorCode::InvalidDuration);
    grant_access(&mut w.record, &mut w.org, &w.owner, 1, &w.org_key, Some(1), i64::MAX - 1).unwrap();
    let e = grant_access(&mut w.record, &mut w.org, &w.owner, 1, &w.org_key, None, i64::MAX - 2).unwrap_err();
    assert_eq!(e, ErrorCode::AccessAlreadyGranted);
    assert_eq!(e.kind(), ErrorKind::State);
    assert_eq!(w.record.access_list.len(), 1);

    update_organization(&mut w.org, &w.org_key, false).unwrap();
    let e = grant_access(&mut w.record, &mut w.org, &w.owner, 1, &w.org_key, None, 0).unwrap_err();
    assert_eq!(e, ErrorCode::OrganizationDeactivated);
}

#[test]
fn grant_refused_when_list_is_full() {
    let mut w = world();
    for i in 0..100i64 {
        grant_access(&mut w.record, &mut w.org, &w.owner, 1, &w.org_key, None, i).unwrap();
        revoke_access(&mut w.record, &mut w.org, &w.owner, 1, &w.org_key, i).unwrap();
    }
    assert_eq!(w.record.access_list.len(), 100);
    let e = grant_access(&mut w.record, &mut w.org, &w.owner, 1, &w.org_key, None, 200).unwrap_err();
    assert_eq!(e, ErrorCode::MaxAccessReached);
    assert_eq!(e.kind(), ErrorKind::Capacity);
    assert_eq!(w.record.access_list.len(), 100);
}

#[test]
fn revoke_errors() {
    let mut w = world();
    let e = revoke_access(&mut w.record, &mut w.org, &key(9), 1, &w.org_key, 0).unwrap_err();
    assert_eq!(e, ErrorCode::UnauthorizedAccess);
    let e = revoke_access(&mut w.record, &mut w.org, &w.owner, 1, &key(9), 0).unwrap_err();
    assert_eq!(e, ErrorCode::InvalidOrganization);
    let e = revoke_access(&mut w.record, &mut w.org, &w.owner, 3, &w.org_key, 0).unwrap_err();
    assert_eq!(e, ErrorCode::InvalidRecordId);
    grant_access(&mut w.record, &mut w.org, &w.owner, 1, &w.org_key, None, 0).unwrap();
    w.org.record_ids.clear();
    let e = revoke_access(&mut w.record, &mut w.org, &w.owner, 1, &w.org_key, 1).unwrap_err();
    assert_eq!(e, ErrorCode::ReverseIndexMismatch);
    assert_eq!(e.kind(), ErrorKind::NotFound);
    assert!(is_authorized(&w.record, &w.org_key, 1));
}

#[test]
fn upload_errors() {
    let owner = key(1);
    let mut vault = new_vault(&owner, 0);
    let mut counter = initialize_record_counter();
    let attempt = |vault: &mut UserVault, counter: &mut RecordCounter, who: &Pubkey, data: usize, mime: usize, desc: usize, title: usize| {
        upload_health_record(
            vault,
            counter,
            who,
            vec![1; data],
            "m".repeat(mime),
            data as u64,
            "d".repeat(desc),
            "t".repeat(title),
            0,
        )
        .map(|_| ())
    };
    assert_eq!(attempt(&mut vault, &mut counter, &key(9), 1, 1, 1, 1), Err(ErrorCode::UnauthorizedAccess));
    assert_eq!(attempt(&mut vault, &mut counter, &owner, 1001, 1, 1, 1), Err(ErrorCode::RecordTooLarge));
    assert_eq!(attempt(&mut vault, &mut counter, &owner, 1, 101, 1, 1), Err(ErrorCode::FileTypeTooLong));
    assert_eq!(attempt(&mut vault, &mut counter, &owner, 1, 1, 101, 1), Err(ErrorCode::DescriptionTooLong));
    assert_eq!(attempt(&mut vault, &mut counter, &owner, 1, 1, 1, 51), Err(ErrorCode::TitleTooLong));
    assert_eq!(counter.record_id, 1);
    assert!(vault.record_ids.is_empty());
    assert_eq!(attempt(&mut vault, &mut counter, &owner, 1000, 100, 100, 50), Ok(()));
    assert_eq!(counter.record_id, 2);

    update_user_vault(&mut vault, &owner, Some(false), None, None).unwrap();
    let e = attempt(&mut vault, &mut counter, &owner, 1, 1, 1, 1).unwrap_err();
    assert_eq!(e, ErrorCode::VaultDeactivated);
    assert_eq!(e.kind(), ErrorKind::State);

    update_user_vault(&mut vault, &owner, Some(true), None, None).unwrap();
    let mut exhausted = RecordCounter { record_id: u64::MAX };
    assert_eq!(attempt(&mut vault, &mut exhausted, &owner, 1, 1, 1, 1), Err(ErrorCode::CounterExhausted));
    assert_eq!(exhausted.record_id, u64::MAX);
}

#[test]
fn text_bounds_count_characters() {
    let owner = key(1);
    let mut vault = new_vault(&owner, 0);
    let mut counter = initialize_record_counter();
    let title = "é".repeat(50);
    let r = upload_health_record(&mut vault, &mut counter, &owner, vec![], String::new(), 0, String::new(), title.clone(), 0);
    assert_eq!(r.unwrap().0.title, title);
}

#[test]
fn deactivate_errors() {
    let mut w = world();
    let e = deactivate_record(&mut w.vault, &mut w.record, &key(9), 1, 0).unwrap_err();
    assert_eq!(e, ErrorCode::UnauthorizedAccess);
    let e = deactivate_record(&mut w.vault, &mut w.record, &w.owner, 4, 0).unwrap_err();
    assert_eq!(e, ErrorCode::InvalidRecordId);
    assert!(w.record.is_active);
    assert_eq!(w.vault.record_ids, vec![1]);
}

#[test]
fn registration_happens_once() {
    let owner = key(1);
    let mut slot = None;
    let ev = register_user(&mut slot, &owner, 42).unwrap();
    assert_eq!(ev.timestamp, 42);
    let vault = slot.clone().unwrap();
    assert!(vault.is_active);
    assert!(vault.record_ids.is_empty());
    assert_eq!(vault.created_at, 42);
    assert_eq!(register_user(&mut slot, &owner, 43).unwrap_err(), ErrorCode::VaultAlreadyRegistered);

    let mut counter = initialize_organization_counter();
    let mut org_slot = None;
    let ev = register_organization(&mut org_slot, &mut counter, &owner, "A".to_string(), "B".to_string(), "C".to_string(), 7).unwrap();
    assert_eq!(ev.organization_id, 1);
    assert_eq!(ev.name, "A");
    assert_eq!(counter.organization_id, 2);
    let org = org_slot.clone().unwrap();
    assert_eq!(org.created_at, 7);
    assert!(org.is_active);
    let e = register_organization(&mut org_slot, &mut counter, &owner, "A".to_string(), "B".to_string(), "C".to_string(), 8).unwrap_err();
    assert_eq!(e, ErrorCode::OrganizationAlreadyRegistered);
    assert_eq!(counter.organization_id, 2);
}

#[test]
fn organization_registration_bounds() {
    let owner = key(4);
    let mut counter = initialize_organization_counter();
    let reg = |name: usize, desc: usize, contact: usize, counter: &mut OrganizationCounter| {
        let mut slot = None;
        register_organization(&mut slot, counter, &owner, "n".repeat(name), "d".repeat(desc), "c".repeat(contact), 0).map(|_| ())
    };
    assert_eq!(reg(101, 1, 1, &mut counter), Err(ErrorCode::NameTooLong));
    assert_eq!(reg(1, 201, 1, &mut counter), Err(ErrorCode::DescriptionTooLong));
    assert_eq!(reg(1, 1, 201, &mut counter), Err(ErrorCode::ContactInfoTooLong));
    assert_eq!(reg(100, 200, 200, &mut counter), Ok(()));
    let mut exhausted = OrganizationCounter { organization_id: u64::MAX };
    assert_eq!(reg(1, 1, 1, &mut exhausted), Err(ErrorCode::CounterExhausted));
}

#[test]
fn profile_updates() {
    let mut w = world();
    update_user_vault(&mut w.vault, &w.owner, None, Some("Ada".to_string()), Some(36)).unwrap();
    assert_eq!(w.vault.name, "Ada");
    assert_eq!(w.vault.age, 36);
    assert!(w.vault.is_active);
    assert_eq!(w.vault.record_ids, vec![1]);
    let e = update_user_vault(&mut w.vault, &key(9), Some(false), None, None).unwrap_err();
    assert_eq!(e, ErrorCode::UnauthorizedAccess);
    let e = update_user_vault(&mut w.vault, &w.owner, None, Some("x".repeat(51)), Some(1)).unwrap_err();
    assert_eq!(e, ErrorCode::NameTooLong);
    assert_eq!(w.vault.age, 36);
    let e = update_organization(&mut w.org, &key(9), false).unwrap_err();
    assert_eq!(e, ErrorCode::UnauthorizedAccess);
    assert!(w.org.is_active);
}

#[test]
fn retrieval_authorization() {
    let mut w = world();
    let ev = authorize_retrieval(&w.record, &w.owner, 10).unwrap();
    assert_eq!(ev.requester, w.owner);
    assert_eq!(authorize_retrieval(&w.record, &w.org_key, 10).unwrap_err(), ErrorCode::UnauthorizedAccess);
    grant_access(&mut w.record, &mut w.org, &w.owner, 1, &w.org_key, Some(5), 10).unwrap();
    let ev = authorize_retrieval(&w.record, &w.org_key, 14).unwrap();
    assert_eq!(ev.record_id, 1);
    assert_eq!(authorize_retrieval(&w.record, &w.org_key, 15).unwrap_err(), ErrorCode::UnauthorizedAccess);
    deactivate_record(&mut w.vault, &mut w.record, &w.owner, 1, 20).unwrap();
    assert_eq!(authorize_retrieval(&w.record, &w.owner, 21).unwrap_err(), ErrorCode::RecordDeactivated);
}

#[test]
fn node_registers_once() {
    let mut state = TEEState { signer: key(0), pubkey: vec![], attestation: vec![], is_initialized: false };
    register_tee_node(&mut state, &key(3), vec![1, 2, 3], vec![4, 5]).unwrap();
    assert!(state.is_initialized);
    assert_eq!(state.signer, key(3));
    assert_eq!(state.pubkey, vec![1, 2, 3]);
    let e = register_tee_node(&mut state, &key(4), vec![9], vec![9]).unwrap_err();
    assert_eq!(e, ErrorCode::NodeAlreadyRegistered);
    assert_eq!(state.signer, key(3));
}

#[test]
fn identifiers_compare_by_every_byte() {
    let mut bytes = [7u8; 32];
    let a = Pubkey::new(bytes);
    bytes[31] = 8;
    let b = Pubkey::new(bytes);
    assert!(a.same(&a));
    assert!(!a.same(&b));
    assert!(!b.same(&a));
}

#[test]
fn stored_accounts_are_checked() {
    let w = world();
    assert!(w.record.is_well_formed());
    assert!(w.vault.is_well_formed());
    let mut broken = w.record.clone();
    let entry = AccessPermission { organization: key(2), granted_at: 0, expires_at: None, live: true };
    broken.access_list = vec![entry, entry];
    assert!(!broken.is_well_formed());
    broken.access_list[0].live = false;
    assert!(broken.is_well_formed());
    broken.title = "t".repeat(51);
    assert!(!broken.is_well_formed());
    let mut vault = w.vault.clone();
    vault.record_ids = (0..101).collect();
    assert!(!vault.is_well_formed());
}
