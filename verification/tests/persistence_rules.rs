use chrono::{NaiveDate, NaiveDateTime};
use extrittio_backend::db_errors::{map_db_error, semantic_constraint, DatabaseErrorKind, DbError};
use extrittio_backend::device_types::{decide_device_type_delete, DeleteDeviceTypeOutcome};
use extrittio_backend::error::{ApplicationError, ConstraintName, PasswordHasherError, PersistenceError};
use extrittio_backend::events::prune_outcome;
use extrittio_backend::json::{json_eq, Json, JsonNumber};
use extrittio_backend::outbox::{claim_token_with, failure_disposition, FailureClass};
use extrittio_backend::rule_actions::{
    aggregate_id_for_action, aggregate_type_for_action, check_action_metadata, decode_envelope,
    envelope_failure, event_type_for_action, frame_action, idempotency_key_for_action,
    idempotency_key_with_digests, invalid_action_failure, outbox_event_for_action, stable_hash,
    tenant_id_for_action, EnvelopeError, PendingAction,
};
use extrittio_backend::rule_snapshots::partition_actions;
use extrittio_backend::telemetry::{
    rollup_recompute_start, MAX_TIMESTAMP_NANOS, MIN_TIMESTAMP_NANOS, NANOS_PER_HOUR,
};
use extrittio_backend::text::{
    append_hex_lower, append_i64, append_u64, ascii_lower_char, eq_ignore_ascii_case,
    parse_u32_str, starts_with, str_equal,
};
use extrittio_backend::zones::{
    decide_zone_delete, DeleteZoneOutcome, ZoneRow, CREATE_SQL, DELETE_SQL, GET_SQL,
    IS_IN_USE_SQL, LIST_FOR_RULE_SNAPSHOT_SQL, LIST_SQL, LOCK_FOR_DELETE_SQL, UPDATE_SQL,
    ZONE_COLUMNS,
};

const EMPTY_SHA256: &str = "e3b0c44298fc1c149afbf4c8996fb92427ae41e4649b934ca495991b7852b855";
const ABC_SHA256: &str = "ba7816bf8f01cfea414140de5dae2223b00361a396177a9cb410ff61f20015ad";

fn timestamp() -> NaiveDateTime {
    NaiveDate::from_ymd_opt(2026, 8, 31).unwrap().and_hms_opt(12, 0, 0).unwrap()
}

fn float(x: f64) -> Json {
    Json::Number(JsonNumber::Float(x.to_bits()))
}

fn obj(entries: Vec<(&str, Json)>) -> Json {
    Json::Object(entries.into_iter().map(|(k, v)| (k.to_owned(), v)).collect())
}

fn row(tenant_id: &str) -> ZoneRow {
    ZoneRow {
        id: "zone-1".into(),
        tenant_id: tenant_id.into(),
        name: "Lab".into(),
        description: String::new(),
        geometry_type: "circle".into(),
        geometry_json: obj(vec![
            ("center", Json::Array(vec![float(1.0), float(2.0)])),
            ("radius_meters", float(3.0)),
        ]),
        color: "#4A90D9".into(),
        created_at: timestamp(),
        updated_at: timestamp(),
    }
}

#[test]
fn postgres_constraint_names_map_to_stable_names() {
    assert_eq!(semantic_constraint(Some("zones_pkey")).as_str(), "zones.id");
    assert_eq!(semantic_constraint(Some("zones_tenant_name_unique")).as_str(), "zones.tenant_name");
    assert_eq!(semantic_constraint(Some("roles_tenant_id_name_key")).as_str(), "roles.tenant_name");
    assert_eq!(semantic_constraint(Some("zones_tenant_id_fkey")).as_str(), "zones.tenant_id");
    assert_eq!(
        semantic_constraint(Some("rule_conditions_tenant_zone_fk")).as_str(),
        "rule_conditions.zone_id"
    );
    assert_eq!(semantic_constraint(Some("generated_constraint_42")).as_str(), "database.constraint");
    assert_eq!(semantic_constraint(None).as_str(), "database.constraint");
}

#[test]
fn remaining_constraint_aliases_map_to_stable_names() {
    assert_eq!(semantic_constraint(Some("zones_tenant_id_id_key")).as_str(), "zones.id");
    assert_eq!(semantic_constraint(Some("roles_pkey")).as_str(), "roles.id");
    assert_eq!(semantic_constraint(Some("roles_tenant_id_id_key")).as_str(), "roles.id");
    assert_eq!(
        semantic_constraint(Some("rule_conditions_zone_id_fkey")).as_str(),
        "rule_conditions.zone_id"
    );
}

#[test]
fn diesel_not_found_maps_to_the_stable_taxonomy() {
    assert!(matches!(map_db_error(DbError::NotFound), PersistenceError::NotFound));
}

fn database(kind: DatabaseErrorKind, constraint: Option<&str>) -> DbError {
    DbError::Database {
        kind,
        message: "server said no".to_owned(),
        constraint_name: constraint.map(|c| c.to_owned()),
    }
}

#[test]
fn database_failures_map_by_kind() {
    match map_db_error(database(DatabaseErrorKind::UniqueViolation, Some("zones_pkey"))) {
        PersistenceError::UniqueViolation { constraint } => assert_eq!(constraint.as_str(), "zones.id"),
        other => panic!("unexpected {other:?}"),
    }
    match map_db_error(database(DatabaseErrorKind::ForeignKeyViolation, Some("zones_tenant_id_fkey"))) {
        PersistenceError::ForeignKeyViolation { constraint } => {
            assert_eq!(constraint.as_str(), "zones.tenant_id")
        }
        other => panic!("unexpected {other:?}"),
    }
    match map_db_error(database(DatabaseErrorKind::CheckViolation, None)) {
        PersistenceError::CheckViolation { constraint } => {
            assert_eq!(constraint.as_str(), "database.constraint")
        }
        other => panic!("unexpected {other:?}"),
    }
    for kind in [DatabaseErrorKind::ClosedConnection, DatabaseErrorKind::UnableToSendCommand] {
        match map_db_error(database(kind, None)) {
            PersistenceError::Unavailable(m) => assert_eq!(m, "server said no"),
            other => panic!("unexpected {other:?}"),
        }
    }
    assert!(matches!(
        map_db_error(database(DatabaseErrorKind::SerializationFailure, None)),
        PersistenceError::Busy { retry_after: None }
    ));
    for kind in [DatabaseErrorKind::NotNullViolation, DatabaseErrorKind::Unknown] {
        match map_db_error(database(kind, Some("zones_pkey"))) {
            PersistenceError::Internal(m) => assert_eq!(m, "server said no"),
            other => panic!("unexpected {other:?}"),
        }
    }
    match map_db_error(DbError::Other("pool timed out".to_owned())) {
        PersistenceError::Internal(m) => assert_eq!(m, "pool timed out"),
        other => panic!("unexpected {other:?}"),
    }
}

#[test]
fn failures_describe_themselves() {
    let constraint = || ConstraintName::new("zones.id".to_owned());
    assert_eq!(PersistenceError::NotFound.message(), "resource was not found");
    assert_eq!(
        PersistenceError::HistoryExpired.message(),
        "requested metric history is outside the retained range"
    );
    assert_eq!(
        PersistenceError::UniqueViolation { constraint: constraint() }.message(),
        "unique constraint violated: zones.id"
    );
    assert_eq!(
        PersistenceError::ForeignKeyViolation { constraint: constraint() }.message(),
        "foreign-key constraint violated: zones.id"
    );
    assert_eq!(
        PersistenceError::CheckViolation { constraint: constraint() }.message(),
        "check constraint violated: zones.id"
    );
    assert_eq!(PersistenceError::Busy { retry_after: None }.message(), "database is busy");
    assert_eq!(
        PersistenceError::Unavailable("down".to_owned()).message(),
        "database is unavailable: down"
    );
    assert_eq!(
        PersistenceError::CorruptData("bad".to_owned()).message(),
        "database returned corrupt data: bad"
    );
    assert_eq!(
        PersistenceError::Internal("oops".to_owned()).message(),
        "internal persistence failure: oops"
    );
    assert_eq!(ApplicationError::Unauthorized.message(), "Unauthorized");
    assert_eq!(ApplicationError::Conflict("taken".to_owned()).message(), "taken");
    assert_eq!(
        ApplicationError::from_persistence(PersistenceError::NotFound).message(),
        "resource was not found"
    );
    assert_eq!(PasswordHasherError::new("hasher failed".to_owned()).message(), "hasher failed");
}

#[test]
fn row_translation_validates_the_tenant_identifier() {
    assert_eq!(row("tenant-a").into_domain().expect("valid zone").tenant_id.as_str(), "tenant-a");
    assert!(matches!(row(" ").into_domain(), Err(PersistenceError::CorruptData(_))));
}

#[test]
fn stored_zone_rows_keep_every_field() {
    let zone = row("tenant-a").into_domain().expect("valid zone");
    assert_eq!(zone.id, "zone-1");
    assert_eq!(zone.name, "Lab");
    assert_eq!(zone.description, "");
    assert_eq!(zone.geometry_type, "circle");
    assert_eq!(zone.color, "#4A90D9");
    assert_eq!(zone.created_at, timestamp());
    assert_eq!(zone.updated_at, timestamp());
    assert!(json_eq(&zone.geometry_json, &row("x").geometry_json));
    match row("").into_domain() {
        Err(PersistenceError::CorruptData(m)) => assert_eq!(m, "tenant identifier must not be blank"),
        other => panic!("unexpected {other:?}"),
    }
}

#[test]
fn tenant_crud_queries_cannot_omit_tenant_scope() {
    for sql in [LIST_SQL, GET_SQL, UPDATE_SQL, LOCK_FOR_DELETE_SQL, DELETE_SQL] {
        assert!(sql.contains("tenant_id = $1"), "unscoped SQL: {sql}");
    }
    assert!(CREATE_SQL.contains("id, tenant_id, name"));
}

#[test]
fn list_queries_lock_the_binary_ordering_contract() {
    assert!(LIST_SQL.contains(r#"ORDER BY name COLLATE "C" ASC, id COLLATE "C" ASC"#));
    assert!(LIST_FOR_RULE_SNAPSHOT_SQL.contains(
        r#"ORDER BY tenant_id COLLATE "C" ASC,
              name COLLATE "C" ASC,
              id COLLATE "C" ASC"#
    ));
}

#[test]
fn returned_column_contract_stays_complete() {
    for column in ZONE_COLUMNS.split(", ") {
        assert!(GET_SQL.contains(column));
        assert!(CREATE_SQL.contains(column));
        assert!(UPDATE_SQL.contains(column));
    }
}

#[test]
fn zones_in_use_are_not_deleted() {
    assert!(IS_IN_USE_SQL.contains("tenant_id = $1 AND zone_id = $2"));
    assert_eq!(decide_zone_delete(false, true), DeleteZoneOutcome::NotFound);
    assert_eq!(decide_zone_delete(true, true), DeleteZoneOutcome::InUse);
    assert_eq!(decide_zone_delete(true, false), DeleteZoneOutcome::Deleted);
}

#[test]
fn device_types_in_use_are_not_deleted() {
    assert_eq!(decide_device_type_delete(false, 4), DeleteDeviceTypeOutcome::NotFound);
    assert_eq!(
        decide_device_type_delete(true, 4),
        DeleteDeviceTypeOutcome::InUse { device_count: 4 }
    );
    assert_eq!(decide_device_type_delete(true, 0), DeleteDeviceTypeOutcome::Deleted);
}

#[test]
fn prune_outcomes_report_each_count() {
    let outcome = prune_outcome(3, 4, 5);
    assert_eq!(outcome.events_deleted, 3);
    assert_eq!(outcome.rollups_deleted, 4);
    assert_eq!(outcome.receipts_deleted, 5);
}

#[test]
fn failed_deliveries_back_off_exponentially() {
    assert_eq!(failure_disposition(1, 5, FailureClass::Retryable), ("failed", 2));
    assert_eq!(failure_disposition(3, 5, FailureClass::Retryable), ("failed", 8));
    assert_eq!(failure_disposition(5, 5, FailureClass::Retryable), ("dead_letter", 32));
    assert_eq!(failure_disposition(0, 5, FailureClass::Permanent), ("dead_letter", 2));
    assert_eq!(failure_disposition(8, 10, FailureClass::Retryable), ("failed", 256));
    assert_eq!(failure_disposition(100, 200, FailureClass::Retryable), ("failed", 256));
    assert_eq!(failure_disposition(-4, 1, FailureClass::Retryable), ("failed", 2));
}

#[test]
fn retry_delays_never_shrink() {
    let mut previous = 0;
    for attempts in -2..12 {
        let (_, delay) = failure_disposition(attempts, 100, FailureClass::Retryable);
        assert!(delay >= previous);
        assert!((2..=256).contains(&delay));
        previous = delay;
    }
}

#[test]
fn rollups_skip_hours_with_pruned_data() {
    let h = NANOS_PER_HOUR;
    assert_eq!(rollup_recompute_start(5, None), Some(5));
    assert_eq!(rollup_recompute_start(0, Some(2 * h)), Some(2 * h));
    assert_eq!(rollup_recompute_start(0, Some(h + 1)), Some(2 * h));
    assert_eq!(rollup_recompute_start(10 * h, Some(h + 1)), Some(10 * h));
    assert_eq!(rollup_recompute_start(-5 * h, Some(-1)), Some(0));
    assert_eq!(rollup_recompute_start(0, Some(MAX_TIMESTAMP_NANOS)), None);
    assert_eq!(
        rollup_recompute_start(MIN_TIMESTAMP_NANOS, Some(MIN_TIMESTAMP_NANOS)),
        Some(MIN_TIMESTAMP_NANOS)
    );
}

#[test]
fn timestamp_bounds_are_those_of_chrono() {
    let min = NaiveDateTime::MIN.and_utc();
    let max = NaiveDateTime::MAX.and_utc();
    let nanos = |t: chrono::DateTime<chrono::Utc>| {
        i128::from(t.timestamp()) * 1_000_000_000 + i128::from(t.timestamp_subsec_nanos())
    };
    assert_eq!(nanos(min), MIN_TIMESTAMP_NANOS);
    assert_eq!(nanos(max), MAX_TIMESTAMP_NANOS);
    assert_eq!(nanos(timestamp().and_utc()) % NANOS_PER_HOUR, 0);
}

fn alert() -> PendingAction {
    PendingAction::CreateAlert {
        tenant_id: "tenant-a".to_owned(),
        rule_id: "rule-1".to_owned(),
        device_id: "device-9".to_owned(),
    }
}

fn webhook() -> PendingAction {
    PendingAction::SendWebhook {
        tenant_id: "tenant-a".to_owned(),
        url: "https://hooks.example/x".to_owned(),
        headers_json: b"{}".to_vec(),
        payload_json: b"abc".to_vec(),
    }
}

fn cooldown(rule: &str) -> PendingAction {
    PendingAction::UpdateCooldown {
        tenant_id: "tenant-b".to_owned(),
        rule_id: rule.to_owned(),
        device_id: "device-9".to_owned(),
        fired_at: timestamp(),
    }
}

fn zone_entry() -> PendingAction {
    PendingAction::UpdateZoneEntry {
        tenant_id: "tenant-c".to_owned(),
        rule_id: "rule-z".to_owned(),
        device_id: "device-9".to_owned(),
        entered_at: None,
    }
}

#[test]
fn stable_hashes_are_lowercase_sha256() {
    assert_eq!(stable_hash(b""), EMPTY_SHA256);
    assert_eq!(stable_hash(b"abc"), ABC_SHA256);
}

#[test]
fn actions_name_their_tenant_event_and_aggregate() {
    assert_eq!(tenant_id_for_action(&alert()), "tenant-a");
    assert_eq!(event_type_for_action(&alert()), "rule.create_alert");
    assert_eq!(aggregate_type_for_action(&alert()), "alert");
    assert_eq!(aggregate_id_for_action(&alert()), "rule-1:device-9");
    assert_eq!(event_type_for_action(&webhook()), "rule.send_webhook");
    assert_eq!(aggregate_type_for_action(&webhook()), "webhook");
    assert_eq!(aggregate_id_for_action(&webhook()), "https://hooks.example/x");
    assert_eq!(tenant_id_for_action(&cooldown("r")), "tenant-b");
    assert_eq!(event_type_for_action(&cooldown("r")), "rule.update_cooldown");
    assert_eq!(aggregate_type_for_action(&cooldown("r")), "rule_cooldown");
    assert_eq!(event_type_for_action(&zone_entry()), "rule.update_zone_entry");
    assert_eq!(aggregate_type_for_action(&zone_entry()), "zone_entry");
    let command = PendingAction::SendCommand {
        tenant_id: "t".to_owned(),
        device_id: "d".to_owned(),
        command: "reboot".to_owned(),
        params_json: b"abc".to_vec(),
    };
    assert_eq!(aggregate_id_for_action(&command), "d:reboot");
    assert_eq!(aggregate_type_for_action(&command), "command");
    assert_eq!(event_type_for_action(&command), "rule.send_command");
    assert_eq!(idempotency_key_for_action(&command), format!("send-command:d:reboot:{ABC_SHA256}"));
    let resolve = PendingAction::ResolveAlert { tenant_id: "t".to_owned(), alert_id: "al-1".to_owned() };
    assert_eq!(aggregate_id_for_action(&resolve), "al-1");
    assert_eq!(event_type_for_action(&resolve), "rule.resolve_alert");
    assert_eq!(idempotency_key_for_action(&resolve), "resolve-alert:al-1");
}

#[test]
fn idempotency_keys_hash_their_payloads() {
    assert_eq!(idempotency_key_for_action(&alert()), "create-alert:rule-1:device-9");
    let value = PendingAction::UpdateAlertValue {
        tenant_id: "t".to_owned(),
        alert_id: "al-1".to_owned(),
        triggered_value: "abc".to_owned(),
    };
    assert_eq!(idempotency_key_for_action(&value), format!("update-alert-value:al-1:{ABC_SHA256}"));
    assert_eq!(event_type_for_action(&value), "rule.update_alert_value");
    assert_eq!(
        idempotency_key_for_action(&webhook()),
        format!("webhook:https://hooks.example/x:{}:{ABC_SHA256}", stable_hash(b"{}"))
    );
    assert_eq!(idempotency_key_for_action(&cooldown("r")), "update-cooldown:r:device-9");
    assert_eq!(idempotency_key_for_action(&zone_entry()), "update-zone-entry:rule-z:device-9");
}

fn action_json() -> Json {
    obj(vec![("CreateAlert", obj(vec![("rule_id", Json::Str("rule-1".to_owned()))]))])
}

#[test]
fn framed_actions_read_back_unchanged() {
    let record = outbox_event_for_action(&alert(), action_json());
    assert_eq!(record.id.len(), 36);
    assert_eq!(record.id.as_bytes()[14], b'4');
    assert_eq!(record.tenant_id, "tenant-a");
    assert_eq!(record.event_type, "rule.create_alert");
    assert_eq!(record.aggregate_type, "alert");
    assert_eq!(record.aggregate_id, "rule-1:device-9");
    assert_eq!(record.idempotency_key.as_deref(), Some("create-alert:rule-1:device-9"));
    assert!(json_eq(
        &record.payload,
        &obj(vec![("version", Json::Number(JsonNumber::PosInt(1))), ("action", action_json())])
    ));
    let decoded = decode_envelope(&record.payload).unwrap();
    assert!(json_eq(&decoded, &action_json()));
    assert!(check_action_metadata(&alert(), &record.tenant_id, &record.event_type).is_ok());
    let other = outbox_event_for_action(&alert(), action_json());
    assert_ne!(record.id, other.id);
}

#[test]
fn legacy_payloads_and_unknown_versions() {
    let legacy = decode_envelope(&action_json()).unwrap();
    assert!(json_eq(&legacy, &action_json()));
    assert!(json_eq(&decode_envelope(&Json::Null).unwrap(), &Json::Null));
    let v2 = obj(vec![("version", Json::Number(JsonNumber::PosInt(2))), ("action", action_json())]);
    match decode_envelope(&v2) {
        Err(EnvelopeError::UnsupportedVersion(v)) => {
            assert!(json_eq(&v, &Json::Number(JsonNumber::PosInt(2))))
        }
        _ => panic!("version 2 must be refused"),
    }
    let float_one = obj(vec![("version", Json::Number(JsonNumber::Float(1.0f64.to_bits())))]);
    assert!(matches!(decode_envelope(&float_one), Err(EnvelopeError::UnsupportedVersion(_))));
    let no_action = obj(vec![("version", Json::Number(JsonNumber::PosInt(1)))]);
    assert!(matches!(decode_envelope(&no_action), Err(EnvelopeError::MissingAction)));
    match envelope_failure(&EnvelopeError::UnsupportedVersion(Json::Null), "2") {
        ApplicationError::InvalidOperation(m) => {
            assert_eq!(m, "unsupported persisted rule-action version: 2")
        }
        other => panic!("unexpected {other:?}"),
    }
    match envelope_failure(&EnvelopeError::MissingAction, "") {
        ApplicationError::InvalidOperation(m) => assert_eq!(m, "rule-action envelope has no action"),
        other => panic!("unexpected {other:?}"),
    }
    match invalid_action_failure("expected value") {
        ApplicationError::InvalidOperation(m) => {
            assert_eq!(m, "invalid persisted rule action: expected value")
        }
        other => panic!("unexpected {other:?}"),
    }
}

#[test]
fn action_metadata_must_match_its_row() {
    assert!(check_action_metadata(&alert(), "tenant-a", "rule.create_alert").is_ok());
    for (tenant, event) in [("tenant-b", "rule.create_alert"), ("tenant-a", "rule.resolve_alert")] {
        match check_action_metadata(&alert(), tenant, event) {
            Err(ApplicationError::InvalidOperation(m)) => {
                assert_eq!(m, "persisted rule-action metadata does not match its payload")
            }
            _ => panic!("mismatched metadata must be refused"),
        }
    }
}

#[test]
fn evaluated_actions_split_into_deliveries_and_runtime_rows() {
    let decision = partition_actions(vec![alert(), cooldown("r1"), webhook(), zone_entry(), cooldown("r2")]);
    assert_eq!(decision.deliveries.len(), 2);
    assert!(matches!(decision.deliveries[0], PendingAction::CreateAlert { .. }));
    assert!(matches!(decision.deliveries[1], PendingAction::SendWebhook { .. }));
    assert_eq!(decision.cooldowns.len(), 2);
    assert_eq!(decision.cooldowns[0].rule_id, "r1");
    assert_eq!(decision.cooldowns[1].rule_id, "r2");
    assert_eq!(decision.cooldowns[0].tenant_id, "tenant-b");
    assert_eq!(decision.cooldowns[0].last_fired_at, timestamp());
    assert_eq!(decision.zone_entries.len(), 1);
    assert_eq!(decision.zone_entries[0].rule_id, "rule-z");
    assert_eq!(decision.zone_entries[0].entered_at, None);
    let empty = partition_actions(vec![]);
    assert!(empty.deliveries.is_empty() && empty.cooldowns.is_empty() && empty.zone_entries.is_empty());
}

#[test]
fn text_helpers_behave_like_std() {
    assert!(str_equal("abc", "abc"));
    assert!(!str_equal("abc", "abd"));
    assert!(eq_ignore_ascii_case("HeLLo", "hello"));
    assert!(!eq_ignore_ascii_case("hello", "hell"));
    assert!(!eq_ignore_ascii_case("É", "é"));
    assert!(starts_with("https://x", "https://"));
    assert!(!starts_with("http", "https://"));
    assert_eq!(ascii_lower_char('Q'), 'q');
    assert_eq!(ascii_lower_char('é'), 'é');
    assert_eq!(parse_u32_str("4294967295"), Some(u32::MAX));
    assert_eq!(parse_u32_str("4294967296"), None);
    assert_eq!(parse_u32_str("+5"), Some(5));
    assert_eq!(parse_u32_str("+"), None);
    assert_eq!(parse_u32_str(""), None);
    assert_eq!(parse_u32_str("-1"), None);
    assert_eq!(parse_u32_str("0007"), Some(7));
    let mut s = String::from("n=");
    append_u64(&mut s, u64::MAX);
    assert_eq!(s, "n=18446744073709551615");
    let mut s = String::new();
    append_i64(&mut s, i64::MIN);
    assert_eq!(s, "-9223372036854775808");
    let mut s = String::new();
    append_hex_lower(&mut s, &vec![0x00, 0xab, 0x0f, 0xff]);
    assert_eq!(s, "00ab0fff");
}

#[test]
fn idempotency_keys_embed_the_given_digests() {
    let first = vec![0x01, 0xab];
    let second = vec![0xff];
    assert_eq!(idempotency_key_with_digests(&webhook(), &first, &second), "webhook:https://hooks.example/x:01ab:ff");
    let value = PendingAction::UpdateAlertValue {
        tenant_id: "t".to_owned(),
        alert_id: "al-1".to_owned(),
        triggered_value: "abc".to_owned(),
    };
    assert_eq!(idempotency_key_with_digests(&value, &first, &second), "update-alert-value:al-1:01ab");
    assert_eq!(idempotency_key_with_digests(&alert(), &first, &second), "create-alert:rule-1:device-9");
}

#[test]
fn framed_actions_keep_the_given_identifier() {
    let record = frame_action(&zone_entry(), Json::Null, "event-42".to_owned());
    assert_eq!(record.id, "event-42");
    assert_eq!(record.tenant_id, "tenant-c");
    assert_eq!(record.event_type, "rule.update_zone_entry");
    assert_eq!(record.aggregate_type, "zone_entry");
    assert_eq!(record.aggregate_id, "rule-z:device-9");
    assert_eq!(record.idempotency_key.as_deref(), Some("update-zone-entry:rule-z:device-9"));
    assert!(json_eq(&decode_envelope(&record.payload).unwrap(), &Json::Null));
}

#[test]
fn claim_tokens_join_worker_and_suffix() {
    assert_eq!(claim_token_with("worker-1", "abc"), "worker-1:abc");
}
