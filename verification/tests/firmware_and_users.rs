use extrittio_backend::error::ApplicationError;
use extrittio_backend::firmware::{
    decide_ota_trigger, firmware_download_path, increment_firmware_version, number_from_i64,
    ota_status_is_terminal, ota_status_update_applies, ota_target_compatible,
    ota_transition_allowed, valid_ota_artifact, FirmwareDownloadGrant, OtaRefusal,
    OtaTriggerFacts, PreparedOtaArtifact, VerifiedFirmwareDownload, DOWNLOAD_GRANT_AUDIENCE,
    DOWNLOAD_GRANT_LIFETIME_SECS,
};
use extrittio_backend::json::{json_eq, object_get, Json, JsonNumber};
use extrittio_backend::roles::{
    decide_role_delete, decide_role_update, DeleteRoleOutcome, LockedRole, RolePatch,
    UpdateRoleOutcome,
};
use extrittio_backend::tenant::{TenantId, TenantIdError};
use extrittio_backend::users::{
    decide_role_assignment, decide_user_delete, dedup_permissions, distinct_role_count,
    login_outcome, password_change_outcome, primary_role_name, role_selection_complete,
    ChangePasswordOutcome, DeleteUserOutcome, EncodedPasswordHash, RecordSuccessfulLoginOutcome,
    RoleAssignmentDecision, UserAuthEpoch,
};

const DIGEST: &str = "ba7816bf8f01cfea414140de5dae2223b00361a396177a9cb410ff61f20015ad";

fn strings(items: &[&str]) -> Vec<String> {
    items.iter().map(|s| (*s).to_owned()).collect()
}

fn tenant(s: &str) -> TenantId {
    TenantId::new(s.to_owned()).unwrap()
}

#[test]
fn encoded_hash_debug_output_is_redacted() {
    let hash = EncodedPasswordHash::new("sensitive-password-verifier".to_owned());
    let debug = hash.redacted_debug();

    assert_eq!(debug, "EncodedPasswordHash(\"[REDACTED]\")");
    assert!(!debug.contains(hash.as_str()));
}

#[test]
fn encoded_hash_keeps_its_value() {
    let hash = EncodedPasswordHash::new("verifier".to_owned());
    assert_eq!(hash.as_str(), "verifier");
    assert_eq!(hash.clone().into_inner(), "verifier");
}

#[test]
fn auth_epochs_are_random_uuid_text() {
    let a = UserAuthEpoch::generate();
    let b = UserAuthEpoch::generate();
    for epoch in [&a, &b] {
        let s = epoch.as_str();
        assert_eq!(s.len(), 36);
        assert_eq!(s.as_bytes()[14], b'4');
        assert!(matches!(s.as_bytes()[19], b'8' | b'9' | b'a' | b'b'));
        for (i, c) in s.chars().enumerate() {
            if [8, 13, 18, 23].contains(&i) {
                assert_eq!(c, '-');
            } else {
                assert!(c.is_ascii_hexdigit() && !c.is_ascii_uppercase());
            }
        }
    }
    assert_ne!(a.as_str(), b.as_str());
    assert_eq!(UserAuthEpoch::new("epoch".to_owned()).into_inner(), "epoch");
}

#[test]
fn tenant_identifiers_must_not_be_blank() {
    assert_eq!(TenantId::new(String::new()), Err(TenantIdError::Blank));
    assert_eq!(TenantId::new(" \t\r\n".to_owned()), Err(TenantIdError::Blank));
    assert_eq!(TenantId::new("\u{a0}\u{3000}\u{b}".to_owned()), Err(TenantIdError::Blank));
    for c in ['\u{1680}', '\u{2000}', '\u{200a}', '\u{2028}', '\u{2029}', '\u{202f}', '\u{205f}', '\u{85}', '\u{c}'] {
        assert!(c.is_whitespace());
        assert_eq!(TenantId::new(c.to_string()), Err(TenantIdError::Blank));
    }
    assert!(TenantId::new("\u{200b}".to_owned()).is_ok());
    assert_eq!(tenant(" a ").as_str(), " a ");
    assert_eq!(tenant("tenant-a").clone().as_str(), "tenant-a");
}

#[test]
fn terminal_statuses_ignore_ascii_case() {
    assert!(ota_status_is_terminal("success"));
    assert!(ota_status_is_terminal("SUCCESS"));
    assert!(ota_status_is_terminal("Failed"));
    assert!(!ota_status_is_terminal("pending"));
    assert!(!ota_status_is_terminal("successful"));
}

#[test]
fn deployments_only_move_forward() {
    assert!(ota_transition_allowed("pending", "downloading"));
    assert!(ota_transition_allowed("pending", "pending"));
    assert!(ota_transition_allowed("rebooting", "failed"));
    assert!(ota_transition_allowed("downloading", "success"));
    assert!(!ota_transition_allowed("installing", "downloading"));
    assert!(!ota_transition_allowed("pending", "unknown"));
    assert!(!ota_transition_allowed("unknown", "pending"));
}

#[test]
fn terminal_deployments_accept_no_status() {
    for next in ["pending", "downloading", "success", "failed", "rebooting"] {
        assert!(!ota_transition_allowed("success", next));
        assert!(!ota_transition_allowed("failed", next));
        assert!(!ota_transition_allowed("FAILED", next));
    }
}

#[test]
fn artifacts_need_a_version_an_http_url_and_a_digest() {
    assert!(valid_ota_artifact("1.0.0", Some(DIGEST), "https://cdn.example/fw.bin"));
    assert!(valid_ota_artifact("1.0.0", Some(DIGEST), "http://cdn.example/fw.bin"));
    assert!(!valid_ota_artifact("", Some(DIGEST), "https://cdn.example/fw.bin"));
    assert!(!valid_ota_artifact(&"v".repeat(64), Some(DIGEST), "https://cdn.example/fw.bin"));
    assert!(valid_ota_artifact(&"v".repeat(63), Some(DIGEST), "https://cdn.example/fw.bin"));
    assert!(!valid_ota_artifact("1.0.0", None, "https://cdn.example/fw.bin"));
    assert!(!valid_ota_artifact("1.0.0", Some(&DIGEST[1..]), "https://cdn.example/fw.bin"));
    let bad_digit = format!("g{}", &DIGEST[1..]);
    assert!(!valid_ota_artifact("1.0.0", Some(&bad_digit), "https://cdn.example/fw.bin"));
    assert!(!valid_ota_artifact("1.0.0", Some(DIGEST), "ftp://cdn.example/fw.bin"));
    let long_url = format!("https://{}", "a".repeat(1016));
    assert!(!valid_ota_artifact("1.0.0", Some(DIGEST), &long_url));
}

#[test]
fn prepared_artifacts_prefer_a_stored_https_url() {
    let prepared = PreparedOtaArtifact::prepare(
        "1.2.3",
        Some(DIGEST),
        "https://cdn.example/fw.bin",
        "https://api.example/grant",
    )
    .unwrap();
    let patch = prepared.desired_patch(7, -3);
    let ota = match object_get(&patch, &"ota".to_owned()) {
        Some(Json::Object(m)) => m,
        other => panic!("missing ota member: {other:?}"),
    };
    let member = |k: &str| object_get(ota, &k.to_owned()).unwrap();
    assert!(json_eq(member("firmware_version"), &Json::Str("1.2.3".to_owned())));
    assert!(json_eq(member("firmware_url"), &Json::Str("https://cdn.example/fw.bin".to_owned())));
    assert!(json_eq(member("firmware_update_id"), &Json::Number(JsonNumber::PosInt(7))));
    assert!(json_eq(member("deployment_id"), &Json::Number(JsonNumber::NegInt(-3))));
    assert!(json_eq(member("sha256"), &Json::Str(DIGEST.to_owned())));
    assert_eq!(patch.len(), 1);
    assert_eq!(ota.len(), 5);

    let via_grant = PreparedOtaArtifact::prepare(
        "1.2.3",
        Some(DIGEST),
        "http://cdn.example/fw.bin",
        "https://api.example/grant",
    )
    .unwrap();
    let patch = via_grant.desired_patch(1, 1);
    let ota = match object_get(&patch, &"ota".to_owned()) {
        Some(Json::Object(m)) => m,
        other => panic!("missing ota member: {other:?}"),
    };
    assert!(json_eq(
        object_get(ota, &"firmware_url".to_owned()).unwrap(),
        &Json::Str("https://api.example/grant".to_owned())
    ));
    assert!(PreparedOtaArtifact::prepare("1", None, "https://a", "https://b").is_none());
    assert!(PreparedOtaArtifact::prepare("1", Some(DIGEST), "s3://a", "ftp://b").is_none());
}

#[test]
fn integers_become_json_numbers() {
    assert_eq!(number_from_i64(0), JsonNumber::PosInt(0));
    assert_eq!(number_from_i64(42), JsonNumber::PosInt(42));
    assert_eq!(number_from_i64(-1), JsonNumber::NegInt(-1));
}

#[test]
fn firmware_versions_bump_their_patch() {
    assert_eq!(increment_firmware_version("1.2.3"), "1.2.4");
    assert_eq!(increment_firmware_version("1.2.009"), "1.2.10");
    assert_eq!(increment_firmware_version("1.2.+7"), "1.2.8");
    assert_eq!(increment_firmware_version("1.2.4294967294"), "1.2.4294967295");
    assert_eq!(increment_firmware_version("1.2"), "1.2.1");
    assert_eq!(increment_firmware_version("1.2.x"), "1.2.x.1");
    assert_eq!(increment_firmware_version("1.2."), "1.2..1");
    assert_eq!(increment_firmware_version("1.2.3.4"), "1.2.3.4.1");
    assert_eq!(increment_firmware_version(""), ".1");
    assert_eq!(increment_firmware_version("é.ü.9"), "é.ü.10");
}

#[test]
fn download_claims_need_a_tenant_and_a_positive_firmware() {
    let ok = VerifiedFirmwareDownload::from_verified_claims("tenant-a".to_owned(), 5).unwrap();
    assert_eq!(ok.tenant().as_str(), "tenant-a");
    assert_eq!(ok.firmware_id(), 5);
    assert!(matches!(
        VerifiedFirmwareDownload::from_verified_claims("tenant-a".to_owned(), 0),
        Err(ApplicationError::Unauthorized)
    ));
    assert!(matches!(
        VerifiedFirmwareDownload::from_verified_claims("  ".to_owned(), 5),
        Err(ApplicationError::Unauthorized)
    ));
}

#[test]
fn download_grants_last_seven_days() {
    assert_eq!(DOWNLOAD_GRANT_LIFETIME_SECS, 7 * 24 * 60 * 60);
    let grant = FirmwareDownloadGrant::new(tenant("tenant-a"), 3, 1_000).unwrap();
    assert_eq!(grant.tenant.as_str(), "tenant-a");
    assert_eq!(grant.firmware_id, 3);
    assert_eq!(grant.audience, DOWNLOAD_GRANT_AUDIENCE);
    assert_eq!(grant.audience, "extrittio:firmware-download");
    assert_eq!(grant.expires_at, 605_800);
    for now in [i64::MAX, -604_801] {
        match FirmwareDownloadGrant::new(tenant("tenant-a"), 3, now) {
            Err(ApplicationError::Internal(m)) => assert_eq!(m, "Failed to authorize firmware download"),
            _ => panic!("grant at {now} must fail"),
        }
    }
    assert_eq!(FirmwareDownloadGrant::new(tenant("t"), 1, -604_800).unwrap().expires_at, 0);
}

#[test]
fn firmware_fits_its_revision_or_its_device_type() {
    assert!(ota_target_compatible(Some("rev-1"), Some("rev-1"), 1, 2));
    assert!(!ota_target_compatible(Some("rev-1"), Some("rev-2"), 1, 1));
    assert!(!ota_target_compatible(Some("rev-1"), None, 1, 1));
    assert!(ota_target_compatible(None, Some("rev-1"), 4, 4));
    assert!(!ota_target_compatible(None, None, 4, 5));
}

#[test]
fn reported_statuses_must_name_the_deployed_firmware() {
    assert!(ota_status_update_applies("pending", 9, Some(9), "installing"));
    assert!(!ota_status_update_applies("pending", 9, Some(8), "installing"));
    assert!(!ota_status_update_applies("pending", 9, None, "installing"));
    assert!(!ota_status_update_applies("success", 9, Some(9), "success"));
}

fn facts<'a>() -> OtaTriggerFacts<'a> {
    OtaTriggerFacts {
        device_type: Some(1),
        firmware_device_type: Some(1),
        firmware_revision: None,
        assigned_revision: None,
        firmware_version: "2.0.0",
        firmware_sha256: Some(DIGEST),
        firmware_url: "https://cdn.example/fw.bin",
        grant_url: "https://api.example/grant",
    }
}

#[test]
fn ota_triggers_check_device_firmware_fit_and_artifact() {
    assert!(decide_ota_trigger(&facts()).is_ok());
    let mut f = facts();
    f.device_type = None;
    f.firmware_device_type = None;
    assert!(matches!(decide_ota_trigger(&f), Err(OtaRefusal::DeviceNotFound)));
    let mut f = facts();
    f.firmware_device_type = None;
    assert!(matches!(decide_ota_trigger(&f), Err(OtaRefusal::FirmwareNotFound)));
    let mut f = facts();
    f.firmware_device_type = Some(2);
    assert!(matches!(decide_ota_trigger(&f), Err(OtaRefusal::Incompatible)));
    let mut f = facts();
    f.firmware_sha256 = None;
    assert!(matches!(decide_ota_trigger(&f), Err(OtaRefusal::InvalidArtifact)));
}

#[test]
fn firmware_download_paths_name_the_firmware() {
    assert_eq!(firmware_download_path(42), "/api/v1/firmware-updates/42/download");
    assert_eq!(firmware_download_path(-7), "/api/v1/firmware-updates/-7/download");
}

#[test]
fn primary_role_prefers_owner_then_admin() {
    assert_eq!(primary_role_name(&strings(&["viewer", "owner", "admin"])), "owner");
    assert_eq!(primary_role_name(&strings(&["viewer", "admin"])), "admin");
    assert_eq!(primary_role_name(&strings(&["operator", "viewer"])), "operator");
    assert_eq!(primary_role_name(&strings(&[])), "viewer");
}

#[test]
fn role_selections_count_distinct_identifiers() {
    assert_eq!(distinct_role_count(&vec![1, 2, 1, 3, 2]), 3);
    assert_eq!(distinct_role_count(&vec![]), 0);
    assert!(role_selection_complete(&vec![], 0));
    assert!(role_selection_complete(&vec![4, 4], 1));
    assert!(!role_selection_complete(&vec![4, 5], 1));
}

#[test]
fn the_last_owner_cannot_be_deleted() {
    assert_eq!(decide_user_delete(false, true, true, 1), DeleteUserOutcome::NotFound);
    assert_eq!(decide_user_delete(true, true, true, 1), DeleteUserOutcome::WouldDeleteLastOwner);
    assert_eq!(decide_user_delete(true, true, true, 2), DeleteUserOutcome::Deleted);
    assert_eq!(decide_user_delete(true, true, false, 1), DeleteUserOutcome::Deleted);
    assert_eq!(decide_user_delete(true, false, true, 0), DeleteUserOutcome::Deleted);
}

#[test]
fn the_last_owner_cannot_lose_the_owner_role() {
    assert_eq!(decide_role_assignment(false, true, true, true, false, 1), RoleAssignmentDecision::UserNotFound);
    assert_eq!(decide_role_assignment(true, false, true, true, false, 1), RoleAssignmentDecision::RolesNotFound);
    assert_eq!(
        decide_role_assignment(true, true, true, true, false, 1),
        RoleAssignmentDecision::WouldRemoveLastOwner
    );
    assert_eq!(decide_role_assignment(true, true, true, true, true, 1), RoleAssignmentDecision::Apply);
    assert_eq!(decide_role_assignment(true, true, true, true, false, 2), RoleAssignmentDecision::Apply);
}

#[test]
fn row_counts_decide_password_and_login_outcomes() {
    assert_eq!(password_change_outcome(0), ChangePasswordOutcome::NotFound);
    assert_eq!(password_change_outcome(1), ChangePasswordOutcome::PasswordChanged);
    assert_eq!(login_outcome(0), RecordSuccessfulLoginOutcome::NotFound);
    assert_eq!(login_outcome(3), RecordSuccessfulLoginOutcome::LoginRecorded);
}

#[test]
fn permissions_drop_adjacent_repeats() {
    assert_eq!(
        dedup_permissions(strings(&["a", "a", "b", "b", "b", "a"])),
        strings(&["a", "b", "a"])
    );
    assert_eq!(dedup_permissions(strings(&[])), strings(&[]));
}

fn locked(name: &str, is_system: bool) -> LockedRole {
    LockedRole { name: name.to_owned(), description: Some("desc".to_owned()), is_system }
}

#[test]
fn system_roles_are_never_changed() {
    let patch = RolePatch { name: Some("renamed".to_owned()), description: Some(None), permissions: None };
    assert!(matches!(decide_role_update(None, &patch), Err(UpdateRoleOutcome::NotFound)));
    assert!(matches!(decide_role_update(Some(locked("owner", true)), &patch), Err(UpdateRoleOutcome::SystemRole)));
    let change = match decide_role_update(Some(locked("ops", false)), &patch) {
        Ok(c) => c,
        Err(_) => panic!("custom roles can be changed"),
    };
    assert_eq!(change.name, "renamed");
    assert_eq!(change.description, None);
    assert!(!change.replaces_permissions);
    let keep = RolePatch { name: None, description: None, permissions: Some(vec![]) };
    let change = match decide_role_update(Some(locked("ops", false)), &keep) {
        Ok(c) => c,
        Err(_) => panic!("custom roles can be changed"),
    };
    assert_eq!(change.name, "ops");
    assert_eq!(change.description, Some("desc".to_owned()));
    assert!(change.replaces_permissions);
}

#[test]
fn assigned_roles_are_not_deleted() {
    assert_eq!(decide_role_delete(None, 0), DeleteRoleOutcome::NotFound);
    assert_eq!(decide_role_delete(Some(locked("owner", true)), 0), DeleteRoleOutcome::SystemRole);
    assert_eq!(
        decide_role_delete(Some(locked("ops", false)), 3),
        DeleteRoleOutcome::InUse { name: "ops".to_owned(), user_count: 3 }
    );
    assert_eq!(decide_role_delete(Some(locked("ops", false)), 0), DeleteRoleOutcome::Deleted);
}
