//! Framing of rule actions as outbox events, and the checks applied when a
//! persisted event is decoded again.
use vstd::prelude::*;
use vstd::utf8::encode_utf8;
use crate::error::ApplicationError;
use crate::ids::{is_uuid_v4_text, new_uuid_v4, sha256, sha256_digest};
use crate::json::{entries_view, json_clone, json_view, lemma_entries_view_push, object_get, Json, JsonNumber, JsonValue};
use crate::outbox::NewOutboxEventRecord;
use crate::text::{append_hex_lower, hex_lower, str_equal};
use chrono::NaiveDateTime;

verus! {

/// A rule action awaiting delivery, with the fields that outbox framing reads.
/// JSON-valued fields of the action (webhook headers and payload, command
/// parameters) are held as their compact JSON serialisation, which is what
/// idempotency keys are computed from.
pub enum PendingAction {
    CreateAlert { tenant_id: String, rule_id: String, device_id: String },
    UpdateAlertValue { tenant_id: String, alert_id: String, triggered_value: String },
    ResolveAlert { tenant_id: String, alert_id: String },
    SendWebhook { tenant_id: String, url: String, headers_json: Vec<u8>, payload_json: Vec<u8> },
    SendCommand { tenant_id: String, device_id: String, command: String, params_json: Vec<u8> },
    UpdateCooldown { tenant_id: String, rule_id: String, device_id: String, fired_at: NaiveDateTime },
    UpdateZoneEntry {
        tenant_id: String,
        rule_id: String,
        device_id: String,
        entered_at: Option<NaiveDateTime>,
    },
}

pub open spec fn action_tenant(a: PendingAction) -> Seq<char> {
    match a {
        PendingAction::CreateAlert { tenant_id, .. } => tenant_id@,
        PendingAction::UpdateAlertValue { tenant_id, .. } => tenant_id@,
        PendingAction::ResolveAlert { tenant_id, .. } => tenant_id@,
        PendingAction::SendWebhook { tenant_id, .. } => tenant_id@,
        PendingAction::SendCommand { tenant_id, .. } => tenant_id@,
        PendingAction::UpdateCooldown { tenant_id, .. } => tenant_id@,
        PendingAction::UpdateZoneEntry { tenant_id, .. } => tenant_id@,
    }
}

pub open spec fn action_event_type(a: PendingAction) -> Seq<char> {
    match a {
        PendingAction::CreateAlert { .. } => "rule.create_alert"@,
        PendingAction::UpdateAlertValue { .. } => "rule.update_alert_value"@,
        PendingAction::ResolveAlert { .. } => "rule.resolve_alert"@,
        PendingAction::SendWebhook { .. } => "rule.send_webhook"@,
        PendingAction::SendCommand { .. } => "rule.send_command"@,
        PendingAction::UpdateCooldown { .. } => "rule.update_cooldown"@,
        PendingAction::UpdateZoneEntry { .. } => "rule.update_zone_entry"@,
    }
}

pub open spec fn action_aggregate_type(a: PendingAction) -> Seq<char> {
    match a {
        PendingAction::CreateAlert { .. } => "alert"@,
        PendingAction::UpdateAlertValue { .. } => "alert"@,
        PendingAction::ResolveAlert { .. } => "alert"@,
        PendingAction::SendWebhook { .. } => "webhook"@,
        PendingAction::SendCommand { .. } => "command"@,
        PendingAction::UpdateCooldown { .. } => "rule_cooldown"@,
        PendingAction::UpdateZoneEntry { .. } => "zone_entry"@,
    }
}

pub open spec fn action_aggregate_id(a: PendingAction) -> Seq<char> {
    match a {
        PendingAction::CreateAlert { rule_id, device_id, .. } => rule_id@ + ":"@ + device_id@,
        PendingAction::UpdateCooldown { rule_id, device_id, .. } => rule_id@ + ":"@ + device_id@,
        PendingAction::UpdateZoneEntry { rule_id, device_id, .. } => rule_id@ + ":"@ + device_id@,
        PendingAction::UpdateAlertValue { alert_id, .. } => alert_id@,
        PendingAction::ResolveAlert { alert_id, .. } => alert_id@,
        PendingAction::SendWebhook { url, .. } => url@,
        PendingAction::SendCommand { device_id, command, .. } => device_id@ + ":"@ + command@,
    }
}

/// Lowercase hexadecimal SHA-256 of a byte sequence.
pub open spec fn stable_hash_of(bytes: Seq<u8>) -> Seq<char> {
    hex_lower(sha256(bytes))
}

/// The bytes whose digests an action's idempotency key embeds, in order: the
/// UTF-8 text of an alert's triggered value; the serialised headers and
/// payload of a webhook; the serialised parameters of a command. Other
/// actions embed no digest.
pub open spec fn hashed_parts(a: PendingAction) -> (Seq<u8>, Seq<u8>) {
    match a {
        PendingAction::UpdateAlertValue { triggered_value, .. } => (
            encode_utf8(triggered_value@),
            Seq::empty(),
        ),
        PendingAction::SendWebhook { headers_json, payload_json, .. } => (
            headers_json@,
            payload_json@,
        ),
        PendingAction::SendCommand { params_json, .. } => (params_json@, Seq::empty()),
        _ => (Seq::empty(), Seq::empty()),
    }
}

/// The idempotency key of an action given the digests of its hashed parts,
/// `first` and `second` in the order of `hashed_parts`; actions that hash
/// nothing ignore them.
pub open spec fn key_with_digests(a: PendingAction, first: Seq<u8>, second: Seq<u8>) -> Seq<char> {
    match a {
        PendingAction::CreateAlert { rule_id, device_id, .. } => "create-alert:"@ + rule_id@ + ":"@
            + device_id@,
        PendingAction::UpdateAlertValue { alert_id, .. } => "update-alert-value:"@ + alert_id@
            + ":"@ + hex_lower(first),
        PendingAction::ResolveAlert { alert_id, .. } => "resolve-alert:"@ + alert_id@,
        PendingAction::SendWebhook { url, .. } => "webhook:"@ + url@ + ":"@ + hex_lower(first)
            + ":"@ + hex_lower(second),
        PendingAction::SendCommand { device_id, command, .. } => "send-command:"@ + device_id@
            + ":"@ + command@ + ":"@ + hex_lower(first),
        PendingAction::UpdateCooldown { rule_id, device_id, .. } => "update-cooldown:"@ + rule_id@
            + ":"@ + device_id@,
        PendingAction::UpdateZoneEntry { rule_id, device_id, .. } => "update-zone-entry:"@
            + rule_id@ + ":"@ + device_id@,
    }
}

/// The key under which the outbox deduplicates deliveries of an action: its
/// parts joined by colons, with each hashed part as its lowercase
/// hexadecimal SHA-256 digest.
pub open spec fn action_idempotency_key(a: PendingAction) -> Seq<char> {
    key_with_digests(a, sha256(hashed_parts(a).0), sha256(hashed_parts(a).1))
}

/// The tenant that owns an action.
pub fn tenant_id_for_action(action: &PendingAction) -> (r: &str)
    ensures
        r@ == action_tenant(*action),
{
    match action {
        PendingAction::CreateAlert { tenant_id, .. } => tenant_id.as_str(),
        PendingAction::UpdateAlertValue { tenant_id, .. } => tenant_id.as_str(),
        PendingAction::ResolveAlert { tenant_id, .. } => tenant_id.as_str(),
        PendingAction::SendWebhook { tenant_id, .. } => tenant_id.as_str(),
        PendingAction::SendCommand { tenant_id, .. } => tenant_id.as_str(),
        PendingAction::UpdateCooldown { tenant_id, .. } => tenant_id.as_str(),
        PendingAction::UpdateZoneEntry { tenant_id, .. } => tenant_id.as_str(),
    }
}

/// The outbox event type of an action.
pub fn event_type_for_action(action: &PendingAction) -> (r: &'static str)
    ensures
        r@ == action_event_type(*action),
{
    match action {
        PendingAction::CreateAlert { .. } => "rule.create_alert",
        PendingAction::UpdateAlertValue { .. } => "rule.update_alert_value",
        PendingAction::ResolveAlert { .. } => "rule.resolve_alert",
        PendingAction::SendWebhook { .. } => "rule.send_webhook",
        PendingAction::SendCommand { .. } => "rule.send_command",
        PendingAction::UpdateCooldown { .. } => "rule.update_cooldown",
        PendingAction::UpdateZoneEntry { .. } => "rule.update_zone_entry",
    }
}

/// The kind of aggregate an action acts on.
pub fn aggregate_type_for_action(action: &PendingAction) -> (r: &'static str)
    ensures
        r@ == action_aggregate_type(*action),
{
    match action {
        PendingAction::CreateAlert { .. } => "alert",
        PendingAction::UpdateAlertValue { .. } => "alert",
        PendingAction::ResolveAlert { .. } => "alert",
        PendingAction::SendWebhook { .. } => "webhook",
        PendingAction::SendCommand { .. } => "command",
        PendingAction::UpdateCooldown { .. } => "rule_cooldown",
        PendingAction::UpdateZoneEntry { .. } => "zone_entry",
    }
}

fn joined(a: &str, b: &str) -> (r: String)
    ensures
        r@ == a@ + ":"@ + b@,
{
    let mut r = String::new();
    r.append(a);
    r.append(":");
    r.append(b);
    r
}

/// The identifier of the aggregate an action acts on.
pub fn aggregate_id_for_action(action: &PendingAction) -> (r: String)
    ensures
        r@ == action_aggregate_id(*action),
{
    match action {
        PendingAction::CreateAlert { rule_id, device_id, .. } => joined(rule_id.as_str(), device_id.as_str()),
        PendingAction::UpdateCooldown { rule_id, device_id, .. } => joined(rule_id.as_str(), device_id.as_str()),
        PendingAction::UpdateZoneEntry { rule_id, device_id, .. } => joined(rule_id.as_str(), device_id.as_str()),
        PendingAction::UpdateAlertValue { alert_id, .. } => alert_id.clone(),
        PendingAction::ResolveAlert { alert_id, .. } => alert_id.clone(),
        PendingAction::SendWebhook { url, .. } => url.clone(),
        PendingAction::SendCommand { device_id, command, .. } => joined(device_id.as_str(), command.as_str()),
    }
}

/// Lowercase hexadecimal SHA-256 of `bytes`.
pub fn stable_hash(bytes: &[u8]) -> (r: String)
    ensures
        r@ == stable_hash_of(bytes@),
{
    let digest = sha256_digest(bytes);
    let mut r = String::new();
    append_hex_lower(&mut r, &digest);
    r
}

/// Builds an action's idempotency key from the SHA-256 digests of its hashed
/// parts (see `hashed_parts`); actions that hash nothing ignore the digests.
pub fn idempotency_key_with_digests(action: &PendingAction, first: &Vec<u8>, second: &Vec<u8>) -> (r:
    String)
    ensures
        r@ == key_with_digests(*action, first@, second@),
{
    let mut r = String::new();
    match action {
        PendingAction::CreateAlert { rule_id, device_id, .. } => {
            r.append("create-alert:");
            r.append(rule_id.as_str());
            r.append(":");
            r.append(device_id.as_str());
        },
        PendingAction::UpdateAlertValue { alert_id, .. } => {
            r.append("update-alert-value:");
            r.append(alert_id.as_str());
            r.append(":");
            append_hex_lower(&mut r, first);
        },
        PendingAction::ResolveAlert { alert_id, .. } => {
            r.append("resolve-alert:");
            r.append(alert_id.as_str());
        },
        PendingAction::SendWebhook { url, .. } => {
            r.append("webhook:");
            r.append(url.as_str());
            r.append(":");
            append_hex_lower(&mut r, first);
            r.append(":");
            append_hex_lower(&mut r, second);
        },
        PendingAction::SendCommand { device_id, command, .. } => {
            r.append("send-command:");
            r.append(device_id.as_str());
            r.append(":");
            r.append(command.as_str());
            r.append(":");
            append_hex_lower(&mut r, first);
        },
        PendingAction::UpdateCooldown { rule_id, device_id, .. } => {
            r.append("update-cooldown:");
            r.append(rule_id.as_str());
            r.append(":");
            r.append(device_id.as_str());
        },
        PendingAction::UpdateZoneEntry { rule_id, device_id, .. } => {
            r.append("update-zone-entry:");
            r.append(rule_id.as_str());
            r.append(":");
            r.append(device_id.as_str());
        },
    }
    r
}

/// The key under which the outbox deduplicates deliveries of an action.
pub fn idempotency_key_for_action(action: &PendingAction) -> (r: String)
    ensures
        r@ == action_idempotency_key(*action),
{
    match action {
        PendingAction::UpdateAlertValue { triggered_value, .. } => {
            let digest = sha256_digest(triggered_value.as_str().as_bytes());
            idempotency_key_with_digests(action, &digest, &Vec::new())
        },
        PendingAction::SendWebhook { headers_json, payload_json, .. } => {
            let headers = sha256_digest(headers_json.as_slice());
            let payload = sha256_digest(payload_json.as_slice());
            idempotency_key_with_digests(action, &headers, &payload)
        },
        PendingAction::SendCommand { params_json, .. } => {
            let digest = sha256_digest(params_json.as_slice());
            idempotency_key_with_digests(action, &digest, &Vec::new())
        },
        _ => idempotency_key_with_digests(action, &Vec::new(), &Vec::new()),
    }
}


/// Version-1 envelope of a persisted action: `{"version": 1, "action": <action>}`.
pub open spec fn envelope_view(action: JsonValue) -> JsonValue {
    JsonValue::Object(
        map!["version"@ => JsonValue::Number(JsonNumber::PosInt(1)), "action"@ => action],
    )
}

/// The outbox row that frames `action`, whose JSON form is `action_json`.
pub open spec fn frames_action(r: NewOutboxEventRecord, action: PendingAction, action_json: JsonValue) -> bool {
    &&& r.tenant_id@ == action_tenant(action)
    &&& r.event_type@ == action_event_type(action)
    &&& r.aggregate_type@ == action_aggregate_type(action)
    &&& r.aggregate_id@ == action_aggregate_id(action)
    &&& r.idempotency_key matches Some(k) && k@ == action_idempotency_key(action)
    &&& json_view(r.payload) == envelope_view(action_json)
}

/// Frames an action as a new outbox row with the identifier `id`.
/// `action_json` is the action's JSON form, which the payload envelope wraps
/// unchanged.
pub fn frame_action(action: &PendingAction, action_json: Json, id: String) -> (r: NewOutboxEventRecord)
    ensures
        frames_action(r, *action, json_view(action_json)),
        r.id@ == id@,
{
    let ghost action_view = json_view(action_json);
    let mut members: Vec<(String, Json)> = Vec::new();
    let v = ("version".to_owned(), Json::Number(JsonNumber::PosInt(1)));
    proof {
        lemma_entries_view_push(members@, v);
        assert(entries_view(Seq::<(String, Json)>::empty()) =~= Map::empty());
    }
    members.push(v);
    let a = ("action".to_owned(), action_json);
    proof {
        lemma_entries_view_push(members@, a);
    }
    members.push(a);
    proof {
        assert(entries_view(members@) =~= map![
            "version"@ => JsonValue::Number(JsonNumber::PosInt(1)),
            "action"@ => action_view,
        ]);
    }
    NewOutboxEventRecord {
        id,
        tenant_id: tenant_id_for_action(action).to_owned(),
        event_type: event_type_for_action(action).to_owned(),
        aggregate_type: aggregate_type_for_action(action).to_owned(),
        aggregate_id: aggregate_id_for_action(action),
        idempotency_key: Some(idempotency_key_for_action(action)),
        payload: Json::Object(members),
    }
}

/// Frames an action as a new outbox row under a fresh random identifier.
pub fn outbox_event_for_action(action: &PendingAction, action_json: Json) -> (r: NewOutboxEventRecord)
    ensures
        frames_action(r, *action, json_view(action_json)),
        is_uuid_v4_text(r.id@),
{
    frame_action(action, action_json, new_uuid_v4())
}

/// Why a persisted payload is not a readable action envelope.
#[derive(Debug)]
pub enum EnvelopeError {
    /// The envelope names a version other than 1; the version is kept.
    UnsupportedVersion(Json),
    /// A version-1 envelope without an `action` member.
    MissingAction,
}

/// The action inside a persisted payload. A payload with a `version` member
/// must be a version-1 envelope with an `action` member; a payload without
/// one is a legacy raw action and is returned whole.
pub open spec fn envelope_action(payload: JsonValue) -> Option<JsonValue> {
    match payload {
        JsonValue::Object(m) => if m.dom().contains("version"@) {
            if m["version"@] == JsonValue::Number(JsonNumber::PosInt(1)) && m.dom().contains(
                "action"@,
            ) {
                Some(m["action"@])
            } else {
                None
            }
        } else {
            Some(payload)
        },
        _ => Some(payload),
    }
}

/// Unwraps the action from a persisted payload.
pub fn decode_envelope(payload: &Json) -> (r: Result<Json, EnvelopeError>)
    ensures
        r is Ok <==> envelope_action(json_view(*payload)) is Some,
        r matches Ok(a) ==> Some(json_view(a)) == envelope_action(json_view(*payload)),
        r matches Err(e) ==> match json_view(*payload) {
            JsonValue::Object(m) => match e {
                EnvelopeError::UnsupportedVersion(v) => m["version"@] != JsonValue::Number(
                    JsonNumber::PosInt(1),
                ) && json_view(v) == m["version"@],
                EnvelopeError::MissingAction => m["version"@] == JsonValue::Number(
                    JsonNumber::PosInt(1),
                ) && !m.dom().contains("action"@),
            },
            _ => false,
        },
{
    match payload {
        Json::Object(members) => {
            let version_key = "version".to_owned();
            match object_get(members, &version_key) {
                Some(version) => {
                    let is_one = match version {
                        Json::Number(n) => crate::json::number_eq(*n, JsonNumber::PosInt(1)),
                        _ => false,
                    };
                    if !is_one {
                        return Err(EnvelopeError::UnsupportedVersion(json_clone(version)));
                    }
                    let action_key = "action".to_owned();
                    match object_get(members, &action_key) {
                        Some(action) => Ok(json_clone(action)),
                        None => Err(EnvelopeError::MissingAction),
                    }
                },
                None => Ok(json_clone(payload)),
            }
        },
        _ => Ok(json_clone(payload)),
    }
}

/// The application failure reported for an unreadable envelope, given the
/// JSON text of an unsupported version.
pub fn envelope_failure(error: &EnvelopeError, version_text: &str) -> (r: ApplicationError)
    ensures
        r is InvalidOperation,
        error is UnsupportedVersion ==> r->InvalidOperation_0@
            == "unsupported persisted rule-action version: "@ + version_text@,
        error is MissingAction ==> r->InvalidOperation_0@ == "rule-action envelope has no action"@,
{
    match error {
        EnvelopeError::UnsupportedVersion(_) => {
            let mut m = String::new();
            m.append("unsupported persisted rule-action version: ");
            m.append(version_text);
            ApplicationError::InvalidOperation(m)
        },
        EnvelopeError::MissingAction => ApplicationError::InvalidOperation(
            "rule-action envelope has no action".to_owned(),
        ),
    }
}

/// The application failure reported for a payload that does not parse as an action.
pub fn invalid_action_failure(parse_error: &str) -> (r: ApplicationError)
    ensures
        r is InvalidOperation,
        r->InvalidOperation_0@ == "invalid persisted rule action: "@ + parse_error@,
{
    let mut m = String::new();
    m.append("invalid persisted rule action: ");
    m.append(parse_error);
    ApplicationError::InvalidOperation(m)
}

/// An action matches the row it was read from when the row's tenant and
/// event type are the action's.
pub open spec fn metadata_matches(action: PendingAction, tenant_id: Seq<char>, event_type: Seq<char>) -> bool {
    action_tenant(action) == tenant_id && action_event_type(action) == event_type
}

/// Rejects an action whose tenant or event type differs from its row's.
pub fn check_action_metadata(action: &PendingAction, tenant_id: &str, event_type: &str) -> (r: Result<
    (),
    ApplicationError,
>)
    ensures
        r is Ok <==> metadata_matches(*action, tenant_id@, event_type@),
        r matches Err(e) ==> e is InvalidOperation && e->InvalidOperation_0@
            == "persisted rule-action metadata does not match its payload"@,
{
    if !str_equal(tenant_id_for_action(action), tenant_id) || !str_equal(
        event_type_for_action(action),
        event_type,
    ) {
        return Err(
            ApplicationError::InvalidOperation(
                "persisted rule-action metadata does not match its payload".to_owned(),
            ),
        );
    }
    Ok(())
}

/// Law: a framed action reads back unchanged: its envelope yields the same
/// action JSON, and the action matches the row's tenant and event type.
pub proof fn lemma_framed_action_round_trips(
    r: NewOutboxEventRecord,
    action: PendingAction,
    action_json: JsonValue,
)
    requires
        frames_action(r, action, action_json),
    ensures
        envelope_action(json_view(r.payload)) == Some(action_json),
        metadata_matches(action, r.tenant_id@, r.event_type@),
{
    reveal_strlit("version");
    reveal_strlit("action");
    assert("version"@.len() != "action"@.len());
}

} // verus!
