use chrono::{DateTime, NaiveDateTime};
use extrittio_backend::alerts::{
    alert_change, decide_alert_creation, decide_alert_transition, AlertChange, AlertCreation,
    AlertTransition, AlertTransitionDecision, AlertTransitionFacts, CooldownEffect, StampChange,
};
use extrittio_backend::analytics::{buckets_needed, count_to_usize, probe_limit};
use extrittio_backend::blueprints::{decide_publication, PublishDecision, PublishFacts, PublishedRevision};
use extrittio_backend::configuration::{interpret_config_row, DeviceConfigLookup};
use extrittio_backend::error::PersistenceError;
use extrittio_backend::events::{
    check_event_admission, check_metric_history, decode_metric_value, event_outcome,
    metric_columns, metric_is_numeric, MetricColumns, MetricValue,
};
use extrittio_backend::firmware::{deployment_status_filter, next_firmware_version, DeploymentStatusFilter};
use extrittio_backend::fleets::{fleet_summaries, FleetRecord};
use extrittio_backend::json::{json_eq, Json, JsonNumber};
use extrittio_backend::lifecycle::{
    busy_and_idle, check_health_answer, lifecycle_connection_counts, PostgresLifecycleError,
};
use extrittio_backend::outbox::claim_token;
use extrittio_backend::rule_snapshots::{check_evaluation_scope, open_alerts_by_rule};
use extrittio_backend::rules::{group_by_key, parse_zone_geometry, zone_snapshots, ZoneShape};
use extrittio_backend::devices::search_pattern;
use extrittio_backend::shadows::{mutate_shadow_record, ShadowMutation, ShadowMutationError, ShadowRecord};
use extrittio_backend::tenant::TenantId;
use extrittio_backend::text::{sorted_unique, str_lt};
use extrittio_backend::zones::Zone;

fn at(secs: i64) -> NaiveDateTime {
    DateTime::from_timestamp(secs, 0).unwrap().naive_utc()
}

fn num(n: u64) -> Json {
    Json::Number(JsonNumber::PosInt(n))
}

fn float(x: f64) -> Json {
    Json::Number(JsonNumber::Float(x.to_bits()))
}

fn obj(entries: Vec<(&str, Json)>) -> Json {
    Json::Object(entries.into_iter().map(|(k, v)| (k.to_owned(), v)).collect())
}

fn strings(items: &[&str]) -> Vec<String> {
    items.iter().map(|s| (*s).to_owned()).collect()
}

#[test]
fn metric_values_name_their_storage_type() {
    assert_eq!(MetricValue::Float64(1.5f64.to_bits()).value_type(), "float64");
    assert_eq!(MetricValue::Int64(-3).value_type(), "int64");
    assert_eq!(MetricValue::String("x".to_owned()).value_type(), "string");
    assert_eq!(MetricValue::Boolean(true).value_type(), "boolean");
    assert_eq!(MetricValue::Json(Json::Null).value_type(), "json");
    assert!(metric_is_numeric(&MetricValue::Float64(0)));
    assert!(metric_is_numeric(&MetricValue::Int64(0)));
    assert!(!metric_is_numeric(&MetricValue::Boolean(false)));
}

#[test]
fn stored_metrics_read_back_as_written() {
    let values = vec![
        MetricValue::Float64(2.25f64.to_bits()),
        MetricValue::Int64(i64::MIN),
        MetricValue::String("warm".to_owned()),
        MetricValue::Boolean(false),
        MetricValue::Json(obj(vec![("a", num(1))])),
    ];
    for value in values {
        let tag = value.value_type();
        let columns = metric_columns(value);
        let decoded = decode_metric_value("event-1", tag, columns).unwrap();
        match decoded {
            MetricValue::Float64(bits) => assert_eq!(f64::from_bits(bits), 2.25),
            MetricValue::Int64(v) => assert_eq!(v, i64::MIN),
            MetricValue::String(s) => assert_eq!(s, "warm"),
            MetricValue::Boolean(b) => assert!(!b),
            MetricValue::Json(j) => assert!(json_eq(&j, &obj(vec![("a", num(1))]))),
        }
    }
}

#[test]
fn unreadable_metrics_are_corrupt_data() {
    let empty = || MetricColumns {
        value_double: None,
        value_int: None,
        value_text: None,
        value_bool: None,
        value_json: None,
    };
    match decode_metric_value("ev-9", "int64", empty()) {
        Err(PersistenceError::CorruptData(m)) => {
            assert_eq!(m, "metric 'ev-9' has invalid value_type 'int64' or missing value")
        }
        other => panic!("unexpected {other:?}"),
    }
    let mut columns = empty();
    columns.value_int = Some(4);
    match decode_metric_value("ev-9", "decimal", columns) {
        Err(PersistenceError::CorruptData(m)) => {
            assert_eq!(m, "metric 'ev-9' has invalid value_type 'decimal' or missing value")
        }
        other => panic!("unexpected {other:?}"),
    }
}

#[test]
fn events_need_history_a_device_and_the_assigned_contract() {
    assert!(check_event_admission(100, 50, true, Some("c-1"), "c-1").is_ok());
    assert!(check_event_admission(50, 50, true, Some("c-1"), "c-1").is_ok());
    assert!(matches!(
        check_event_admission(49, 50, false, None, "c-1"),
        Err(PersistenceError::HistoryExpired)
    ));
    assert!(matches!(
        check_event_admission(100, 50, false, Some("c-1"), "c-1"),
        Err(PersistenceError::NotFound)
    ));
    assert!(matches!(
        check_event_admission(100, 50, true, Some("c-2"), "c-1"),
        Err(PersistenceError::NotFound)
    ));
    assert!(matches!(
        check_event_admission(100, 50, true, None, "c-1"),
        Err(PersistenceError::NotFound)
    ));
}

#[test]
fn duplicate_events_record_nothing() {
    let duplicate = event_outcome(false, 4, 2);
    assert!(!duplicate.recorded);
    assert_eq!(duplicate.metrics_recorded, 0);
    assert_eq!(duplicate.actions_enqueued, 0);
    let fresh = event_outcome(true, 4, 2);
    assert!(fresh.recorded);
    assert_eq!(fresh.metrics_recorded, 4);
    assert_eq!(fresh.actions_enqueued, 2);
}

#[test]
fn metric_history_must_lie_after_the_raw_watermark() {
    assert!(check_metric_history(None, None, 10).is_ok());
    assert!(check_metric_history(Some(10), Some(11), 10).is_ok());
    assert!(matches!(check_metric_history(Some(9), None, 10), Err(PersistenceError::HistoryExpired)));
    assert!(matches!(check_metric_history(None, Some(10), 10), Err(PersistenceError::HistoryExpired)));
}

fn facts() -> AlertTransitionFacts {
    AlertTransitionFacts {
        alert_found: true,
        device_found: true,
        locked_status: Some("active".to_owned()),
        status_accepted: true,
        requires_active_slot: false,
        rule_id: Some("rule-1".to_owned()),
        conflicting_alert: None,
    }
}

#[test]
fn transitions_change_status_and_stamps() {
    assert_eq!(
        alert_change(AlertTransition::Acknowledge),
        AlertChange { status: "acknowledged", acknowledged_at: StampChange::SetNow, resolved_at: StampChange::Keep }
    );
    assert_eq!(
        alert_change(AlertTransition::Resolve),
        AlertChange { status: "resolved", acknowledged_at: StampChange::Keep, resolved_at: StampChange::SetNow }
    );
    assert_eq!(
        alert_change(AlertTransition::Reactivate),
        AlertChange { status: "active", acknowledged_at: StampChange::Clear, resolved_at: StampChange::Clear }
    );
}

#[test]
fn alert_transitions_check_existence_status_and_slot() {
    let mut f = facts();
    f.device_found = false;
    assert!(matches!(decide_alert_transition(AlertTransition::Resolve, f), AlertTransitionDecision::NotFound));
    let mut f = facts();
    f.locked_status = None;
    assert!(matches!(decide_alert_transition(AlertTransition::Resolve, f), AlertTransitionDecision::NotFound));
    let mut f = facts();
    f.status_accepted = false;
    match decide_alert_transition(AlertTransition::Acknowledge, f) {
        AlertTransitionDecision::InvalidStatus(s) => assert_eq!(s, "active"),
        _ => panic!("a refused status must be reported"),
    }
    let mut f = facts();
    f.requires_active_slot = true;
    f.conflicting_alert = Some("alert-7".to_owned());
    match decide_alert_transition(AlertTransition::Reactivate, f) {
        AlertTransitionDecision::ActiveConflict(id) => assert_eq!(id, "alert-7"),
        _ => panic!("an occupied slot must be reported"),
    }
    let mut f = facts();
    f.requires_active_slot = true;
    f.rule_id = None;
    f.conflicting_alert = Some("alert-7".to_owned());
    assert!(matches!(
        decide_alert_transition(AlertTransition::Reactivate, f),
        AlertTransitionDecision::Apply { cooldown: CooldownEffect::Keep, .. }
    ));
}

#[test]
fn resolving_restarts_and_reactivating_clears_the_cooldown() {
    assert!(matches!(
        decide_alert_transition(AlertTransition::Resolve, facts()),
        AlertTransitionDecision::Apply { cooldown: CooldownEffect::Restart, .. }
    ));
    assert!(matches!(
        decide_alert_transition(AlertTransition::Reactivate, facts()),
        AlertTransitionDecision::Apply { cooldown: CooldownEffect::Clear, .. }
    ));
    assert!(matches!(
        decide_alert_transition(AlertTransition::Acknowledge, facts()),
        AlertTransitionDecision::Apply { cooldown: CooldownEffect::Keep, .. }
    ));
}

#[test]
fn rules_raise_at_most_one_open_alert_per_device() {
    assert_eq!(decide_alert_creation(true, true, Some("a".to_owned()), "r"), AlertCreation::AlreadyDelivered);
    assert_eq!(
        decide_alert_creation(false, true, Some("a".to_owned()), "r"),
        AlertCreation::Reuse { alert_id: "r".to_owned() }
    );
    assert_eq!(
        decide_alert_creation(false, false, Some("a".to_owned()), "r"),
        AlertCreation::Reuse { alert_id: "a".to_owned() }
    );
    assert_eq!(decide_alert_creation(false, false, None, "r"), AlertCreation::Insert { alert_id: "r".to_owned() });
}

#[test]
fn bulk_transitions_visit_each_alert_once_in_order() {
    let ordered = sorted_unique(strings(&["b", "a", "c", "a", "ab", "b"]));
    assert_eq!(ordered, strings(&["a", "ab", "b", "c"]));
    assert!(sorted_unique(vec![]).is_empty());
    assert!(str_lt("a", "ab"));
    assert!(str_lt("Z", "a"));
    assert!(str_lt("é", "ê"));
    assert!(!str_lt("b", "ab"));
    assert!(!str_lt("x", "x"));
    let mut by_std = strings(&["zeta", "Alpha", "beta", "éclair", "beta", "α"]);
    by_std.sort();
    by_std.dedup();
    assert_eq!(sorted_unique(strings(&["zeta", "Alpha", "beta", "éclair", "beta", "α"])), by_std);
}

#[test]
fn prepared_evaluations_must_match_their_ingress() {
    assert!(check_evaluation_scope("t", "d", "t", "d").is_ok());
    for (tenant, device) in [("t2", "d"), ("t", "d2")] {
        match check_evaluation_scope("t", "d", tenant, device) {
            Err(PersistenceError::CorruptData(m)) => {
                assert_eq!(m, "rule evaluation scope does not match ingress")
            }
            other => panic!("unexpected {other:?}"),
        }
    }
}

#[test]
fn open_alerts_without_a_rule_are_skipped() {
    let pairs = open_alerts_by_rule(vec![
        (Some("r1".to_owned()), "a1".to_owned()),
        (None, "a2".to_owned()),
        (Some("r2".to_owned()), "a3".to_owned()),
    ]);
    assert_eq!(pairs, vec![("r1".to_owned(), "a1".to_owned()), ("r2".to_owned(), "a3".to_owned())]);
}

fn document() -> Json {
    obj(vec![("schema", num(1))])
}

#[test]
fn publication_is_optimistic_and_idempotent() {
    let doc = document();
    let draft_doc = document();
    let published_doc = document();
    let other = obj(vec![("schema", num(2))]);
    let mut f = PublishFacts {
        blueprint_found: true,
        draft: Some((at(5), &draft_doc)),
        expected_draft_updated_at: at(5),
        document: &doc,
        document_hash: "h1",
        latest: None,
        expected_previous_revision_id: None,
        next_revision: 1,
    };
    assert_eq!(decide_publication(&f), PublishDecision::Publish { revision: 1 });
    f.next_revision = i64::from(i32::MAX) + 1;
    assert_eq!(decide_publication(&f), PublishDecision::RevisionOutOfRange);
    f.next_revision = 2;
    f.latest = Some(PublishedRevision { id: "rev-1", document_hash: "h0", document: &other });
    assert_eq!(decide_publication(&f), PublishDecision::PublicationChanged);
    f.expected_previous_revision_id = Some("rev-1");
    assert_eq!(decide_publication(&f), PublishDecision::Publish { revision: 2 });
    f.latest = Some(PublishedRevision { id: "rev-1", document_hash: "h1", document: &published_doc });
    f.expected_previous_revision_id = Some("rev-0");
    assert_eq!(decide_publication(&f), PublishDecision::AlreadyPublished);
    f.expected_draft_updated_at = at(6);
    assert_eq!(decide_publication(&f), PublishDecision::DraftChanged);
    f.expected_draft_updated_at = at(5);
    f.draft = Some((at(5), &other));
    assert_eq!(decide_publication(&f), PublishDecision::DraftChanged);
    f.draft = None;
    assert_eq!(decide_publication(&f), PublishDecision::BlueprintNotFound);
    f.draft = Some((at(5), &draft_doc));
    f.blueprint_found = false;
    assert_eq!(decide_publication(&f), PublishDecision::BlueprintNotFound);
}

#[test]
fn analytics_counts_saturate_and_probe_one_past_the_cap() {
    assert_eq!(count_to_usize(7), 7);
    assert_eq!(count_to_usize(-1), usize::MAX);
    assert_eq!(probe_limit(10), 11);
    assert_eq!(probe_limit(usize::MAX), i64::MAX);
    assert!(buckets_needed(3, 3, 2));
    assert!(!buckets_needed(4, 3, 2));
    assert!(!buckets_needed(0, 3, 0));
}

#[test]
fn zone_geometry_parses_circles_and_polygons() {
    let circle = obj(vec![("center", Json::Array(vec![float(1.0), num(2)])), ("radius_meters", float(3.5))]);
    match parse_zone_geometry("circle", &circle) {
        Some(ZoneShape::Circle { center_lat, center_lon, radius_meters }) => {
            assert_eq!(center_lat, JsonNumber::Float(1.0f64.to_bits()));
            assert_eq!(center_lon, JsonNumber::PosInt(2));
            assert_eq!(radius_meters, JsonNumber::Float(3.5f64.to_bits()));
        }
        other => panic!("unexpected {other:?}"),
    }
    assert!(parse_zone_geometry("polygon", &circle).is_none());
    assert!(parse_zone_geometry("square", &circle).is_none());
    let short = obj(vec![("center", Json::Array(vec![float(1.0)])), ("radius_meters", float(3.5))]);
    assert!(parse_zone_geometry("circle", &short).is_none());
    let no_radius = obj(vec![("center", Json::Array(vec![float(1.0), float(2.0)]))]);
    assert!(parse_zone_geometry("circle", &no_radius).is_none());
    let polygon = obj(vec![(
        "points",
        Json::Array(vec![
            Json::Array(vec![num(0), num(0)]),
            Json::Array(vec![num(0), Json::Number(JsonNumber::NegInt(-4))]),
        ]),
    )]);
    match parse_zone_geometry("polygon", &polygon) {
        Some(ZoneShape::Polygon { points }) => assert_eq!(
            points,
            vec![
                (JsonNumber::PosInt(0), JsonNumber::PosInt(0)),
                (JsonNumber::PosInt(0), JsonNumber::NegInt(-4)),
            ]
        ),
        other => panic!("unexpected {other:?}"),
    }
    let empty = obj(vec![("points", Json::Array(vec![]))]);
    assert!(matches!(parse_zone_geometry("polygon", &empty), Some(ZoneShape::Polygon { points }) if points.is_empty()));
    let bad_point = obj(vec![("points", Json::Array(vec![Json::Array(vec![num(0), Json::Null])]))]);
    assert!(parse_zone_geometry("polygon", &bad_point).is_none());
}

fn zone(id: &str, geometry_type: &str, geometry: Json) -> Zone {
    Zone {
        id: id.to_owned(),
        tenant_id: TenantId::new("t".to_owned()).unwrap(),
        name: format!("zone {id}"),
        description: String::new(),
        geometry_type: geometry_type.to_owned(),
        geometry_json: geometry,
        color: "#fff".to_owned(),
        created_at: at(0),
        updated_at: at(0),
    }
}

#[test]
fn rule_snapshots_keep_only_zones_with_a_shape() {
    let circle = obj(vec![("center", Json::Array(vec![num(1), num(2)])), ("radius_meters", num(3))]);
    let snapshots = zone_snapshots(vec![
        zone("z1", "circle", circle),
        zone("z2", "circle", Json::Null),
        zone("z3", "polygon", obj(vec![("points", Json::Array(vec![]))])),
    ]);
    assert_eq!(snapshots.len(), 2);
    assert_eq!(snapshots[0].id, "z1");
    assert_eq!(snapshots[0].name, "zone z1");
    assert_eq!(snapshots[1].id, "z3");
}

fn shadow(version: i32) -> ShadowRecord {
    ShadowRecord {
        device_id: "d".to_owned(),
        desired: obj(vec![("a", num(1))]),
        reported: obj(vec![]),
        delta: obj(vec![("a", num(1))]),
        version,
        updated_at: at(1),
    }
}

#[test]
fn shadow_mutations_apply_under_the_row_lock() {
    assert!(matches!(mutate_shadow_record(None, ShadowMutation::Reset, at(2)), Ok(None)));
    let patch = vec![("a".to_owned(), num(1))];
    let updated = mutate_shadow_record(Some(shadow(1)), ShadowMutation::Reported(patch), at(2))
        .unwrap()
        .unwrap();
    assert!(json_eq(&updated.delta, &obj(vec![])));
    assert_eq!(updated.version, 2);
    let desired = mutate_shadow_record(
        Some(shadow(1)),
        ShadowMutation::Desired(vec![("b".to_owned(), num(2))]),
        at(3),
    )
    .unwrap()
    .unwrap();
    assert!(json_eq(&desired.desired, &obj(vec![("a", num(1)), ("b", num(2))])));
    assert_eq!(desired.updated_at, at(3));
    match mutate_shadow_record(Some(shadow(i32::MAX)), ShadowMutation::Reset, at(2)) {
        Err(PersistenceError::CorruptData(m)) => assert_eq!(m, "shadow version overflow"),
        _ => panic!("overflow must be corrupt data"),
    }
    assert_eq!(ShadowMutationError::VersionOverflow.message(), "shadow version overflow");
}

#[test]
fn next_versions_start_at_one_and_bump_the_patch() {
    assert_eq!(next_firmware_version(None), "1.0.0");
    assert_eq!(next_firmware_version(Some("2.4.9")), "2.4.10");
    assert_eq!(next_firmware_version(Some("beta")), "beta.1");
}

#[test]
fn deployment_filters_split_finished_and_unfinished() {
    assert_eq!(deployment_status_filter(None), DeploymentStatusFilter::All);
    assert_eq!(deployment_status_filter(Some("")), DeploymentStatusFilter::All);
    assert_eq!(deployment_status_filter(Some("all")), DeploymentStatusFilter::All);
    assert_eq!(deployment_status_filter(Some("active")), DeploymentStatusFilter::InProgress);
    assert_eq!(deployment_status_filter(Some("in_progress")), DeploymentStatusFilter::InProgress);
    assert_eq!(deployment_status_filter(Some("terminal")), DeploymentStatusFilter::Completed);
    assert_eq!(deployment_status_filter(Some("completed")), DeploymentStatusFilter::Completed);
    assert_eq!(
        deployment_status_filter(Some("rebooting")),
        DeploymentStatusFilter::Exactly("rebooting".to_owned())
    );
}

#[test]
fn configuration_rows_are_interpreted_strictly() {
    assert!(matches!(interpret_config_row(None), Ok(DeviceConfigLookup::DeviceNotFound)));
    assert!(matches!(interpret_config_row(Some((None, None))), Ok(DeviceConfigLookup::NoConfiguration)));
    match interpret_config_row(Some((Some(num(5)), Some(at(7))))) {
        Ok(DeviceConfigLookup::Found { config, updated_at }) => {
            assert!(json_eq(&config, &num(5)));
            assert_eq!(updated_at, at(7));
        }
        other => panic!("unexpected {other:?}"),
    }
    match interpret_config_row(Some((Some(num(5)), None))) {
        Err(PersistenceError::CorruptData(m)) => {
            assert_eq!(m, "device configuration join returned partial data")
        }
        other => panic!("unexpected {other:?}"),
    }
}

#[test]
fn fleets_are_listed_with_their_device_counts() {
    let rows = vec![
        FleetRecord { id: 1, name: "north".to_owned() },
        FleetRecord { id: 2, name: "south".to_owned() },
    ];
    let summaries = fleet_summaries(rows, &vec![(None, 9), (Some(2), 4)]);
    assert_eq!(summaries.len(), 2);
    assert_eq!(summaries[0].fleet.name, "north");
    assert_eq!(summaries[0].device_count, 0);
    assert_eq!(summaries[1].device_count, 4);
}

#[test]
fn claim_tokens_extend_the_worker_identifier() {
    let a = claim_token("worker-1");
    let b = claim_token("worker-1");
    assert!(a.starts_with("worker-1:"));
    assert_eq!(a.len(), "worker-1".len() + 37);
    assert_eq!(a.as_bytes()["worker-1:".len() + 14], b'4');
    assert_ne!(a, b);
}

#[test]
fn lifecycle_failures_and_counts() {
    assert!(check_health_answer(1).is_ok());
    match check_health_answer(2) {
        Err(e) => {
            assert_eq!(
                e,
                PostgresLifecycleError::CorruptData("database health query returned an unexpected value".to_owned())
            );
            assert_eq!(
                e.message(),
                "PostgreSQL database returned corrupt data: database health query returned an unexpected value"
            );
        }
        Ok(()) => panic!("a wrong probe answer must fail"),
    }
    assert_eq!(PostgresLifecycleError::Unavailable("x".to_owned()).message(), "PostgreSQL database is unavailable: x");
    assert_eq!(PostgresLifecycleError::Migration("m".to_owned()).message(), "PostgreSQL migration failed: m");
    assert_eq!(PostgresLifecycleError::Internal("i".to_owned()).message(), "internal PostgreSQL lifecycle failure: i");
    assert_eq!(busy_and_idle(10, 3), (7, 3));
    assert_eq!(lifecycle_connection_counts(10, 3), (7, 3));
    assert_eq!(lifecycle_connection_counts(3, 10), (0, 10));
    assert_eq!(lifecycle_connection_counts(u32::MAX, 0), (-1, 0));
}

#[test]
fn rule_details_group_conditions_under_their_rule() {
    let keys = strings(&["r1", "r2", "r1", "r3"]);
    let items = vec![
        ("r2".to_owned(), 10),
        ("r1".to_owned(), 11),
        ("rx".to_owned(), 12),
        ("r1".to_owned(), 13),
    ];
    let groups = group_by_key(&keys, items);
    assert_eq!(groups, vec![vec![11, 13], vec![10], vec![], vec![]]);
    let none: Vec<Vec<i32>> = group_by_key(&vec![], vec![("a".to_owned(), 1)]);
    assert!(none.is_empty());
}

#[test]
fn device_searches_match_anywhere_in_the_name() {
    assert_eq!(search_pattern(Some("pump")), Some("%pump%".to_owned()));
    assert_eq!(search_pattern(Some("")), Some("%%".to_owned()));
    assert_eq!(search_pattern(None), None);
}
