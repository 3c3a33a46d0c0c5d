//! Device event ingestion: typed metric values and their storage columns,
//! the checks applied before an event is stored, and retention outcomes.
use vstd::prelude::*;
use crate::error::PersistenceError;
use crate::json::Json;

verus! {

#[derive(Debug, Clone, Copy, PartialEq, Eq, Structural)]
pub struct RecordDeviceEventOutcome {
    pub recorded: bool,
    pub metrics_recorded: usize,
    pub actions_enqueued: usize,
}

#[derive(Debug, Clone, Copy, PartialEq, Eq, Structural)]
pub struct MetricPruneOutcome {
    pub events_deleted: u64,
    pub rollups_deleted: u64,
    pub receipts_deleted: u64,
}

/// A prune outcome from the row counts each deletion reported.
pub fn prune_outcome(events_deleted: usize, rollups_deleted: usize, receipts_deleted: usize) -> (r:
    MetricPruneOutcome)
    ensures
        r.events_deleted == events_deleted,
        r.rollups_deleted == rollups_deleted,
        r.receipts_deleted == receipts_deleted,
{
    MetricPruneOutcome {
        events_deleted: events_deleted as u64,
        rollups_deleted: rollups_deleted as u64,
        receipts_deleted: receipts_deleted as u64,
    }
}

// ------------------------------------------------------------ metric values

/// A typed metric value extracted from an event. `Float64` holds the IEEE-754
/// bit pattern of the double.
#[derive(Debug)]
pub enum MetricValue {
    Float64(u64),
    Int64(i64),
    String(String),
    Boolean(bool),
    Json(Json),
}

/// The storage type tag of a metric value.
pub open spec fn metric_type(v: MetricValue) -> Seq<char> {
    match v {
        MetricValue::Float64(_) => "float64"@,
        MetricValue::Int64(_) => "int64"@,
        MetricValue::String(_) => "string"@,
        MetricValue::Boolean(_) => "boolean"@,
        MetricValue::Json(_) => "json"@,
    }
}

impl MetricValue {
    /// The storage type tag: `float64`, `int64`, `string`, `boolean` or `json`.
    pub fn value_type(&self) -> (r: &'static str)
        ensures
            r@ == metric_type(*self),
    {
        match self {
            MetricValue::Float64(_) => "float64",
            MetricValue::Int64(_) => "int64",
            MetricValue::String(_) => "string",
            MetricValue::Boolean(_) => "boolean",
            MetricValue::Json(_) => "json",
        }
    }
}

/// The typed value columns of a stored metric sample; exactly one is set
/// when the sample was written from a value.
pub struct MetricColumns {
    pub value_double: Option<u64>,
    pub value_int: Option<i64>,
    pub value_text: Option<String>,
    pub value_bool: Option<bool>,
    pub value_json: Option<Json>,
}

/// The columns a value is stored in: its own column holds it, the others are empty.
pub open spec fn columns_of(v: MetricValue) -> MetricColumns {
    match v {
        MetricValue::Float64(x) => MetricColumns {
            value_double: Some(x),
            value_int: None,
            value_text: None,
            value_bool: None,
            value_json: None,
        },
        MetricValue::Int64(x) => MetricColumns {
            value_double: None,
            value_int: Some(x),
            value_text: None,
            value_bool: None,
            value_json: None,
        },
        MetricValue::String(x) => MetricColumns {
            value_double: None,
            value_int: None,
            value_text: Some(x),
            value_bool: None,
            value_json: None,
        },
        MetricValue::Boolean(x) => MetricColumns {
            value_double: None,
            value_int: None,
            value_text: None,
            value_bool: Some(x),
            value_json: None,
        },
        MetricValue::Json(x) => MetricColumns {
            value_double: None,
            value_int: None,
            value_text: None,
            value_bool: None,
            value_json: Some(x),
        },
    }
}

/// Splits a value into the columns it is stored in.
pub fn metric_columns(value: MetricValue) -> (c: MetricColumns)
    ensures
        c == columns_of(value),
{
    match value {
        MetricValue::Float64(x) => MetricColumns {
            value_double: Some(x),
            value_int: None,
            value_text: None,
            value_bool: None,
            value_json: None,
        },
        MetricValue::Int64(x) => MetricColumns {
            value_double: None,
            value_int: Some(x),
            value_text: None,
            value_bool: None,
            value_json: None,
        },
        MetricValue::String(x) => MetricColumns {
            value_double: None,
            value_int: None,
            value_text: Some(x),
            value_bool: None,
            value_json: None,
        },
        MetricValue::Boolean(x) => MetricColumns {
            value_double: None,
            value_int: None,
            value_text: None,
            value_bool: Some(x),
            value_json: None,
        },
        MetricValue::Json(x) => MetricColumns {
            value_double: None,
            value_int: None,
            value_text: None,
            value_bool: None,
            value_json: Some(x),
        },
    }
}

/// Whether a value feeds the hourly numeric rollups: doubles and integers do.
pub open spec fn is_numeric_metric(v: MetricValue) -> bool {
    v is Float64 || v is Int64
}

pub fn metric_is_numeric(value: &MetricValue) -> (r: bool)
    ensures
        r == is_numeric_metric(*value),
{
    match value {
        MetricValue::Float64(_) | MetricValue::Int64(_) => true,
        _ => false,
    }
}

/// The value that a stored sample holds: the column named by its type tag,
/// when that column is set; `None` for an unknown tag or a missing value.
pub open spec fn stored_metric(value_type: Seq<char>, c: MetricColumns) -> Option<MetricValue> {
    if value_type == "float64"@ {
        match c.value_double {
            Some(x) => Some(MetricValue::Float64(x)),
            None => None,
        }
    } else if value_type == "int64"@ {
        match c.value_int {
            Some(x) => Some(MetricValue::Int64(x)),
            None => None,
        }
    } else if value_type == "string"@ {
        match c.value_text {
            Some(x) => Some(MetricValue::String(x)),
            None => None,
        }
    } else if value_type == "boolean"@ {
        match c.value_bool {
            Some(x) => Some(MetricValue::Boolean(x)),
            None => None,
        }
    } else if value_type == "json"@ {
        match c.value_json {
            Some(x) => Some(MetricValue::Json(x)),
            None => None,
        }
    } else {
        None
    }
}

/// The message of the failure reported for an unreadable stored sample.
pub open spec fn corrupt_metric_message(event_id: Seq<char>, value_type: Seq<char>) -> Seq<char> {
    "metric '"@ + event_id + "' has invalid value_type '"@ + value_type + "' or missing value"@
}

/// Reads the value of a stored sample back. An unknown type tag, or a tag
/// whose column is empty, is corrupt data.
pub fn decode_metric_value(event_id: &str, value_type: &str, columns: MetricColumns) -> (r: Result<
    MetricValue,
    PersistenceError,
>)
    ensures
        r is Ok <==> stored_metric(value_type@, columns) is Some,
        r matches Ok(v) ==> Some(v) == stored_metric(value_type@, columns),
        r matches Err(e) ==> e is CorruptData && e->CorruptData_0@ == corrupt_metric_message(
            event_id@,
            value_type@,
        ),
{
    let MetricColumns { value_double, value_int, value_text, value_bool, value_json } = columns;
    let decoded = if crate::text::str_equal(value_type, "float64") {
        match value_double {
            Some(x) => Some(MetricValue::Float64(x)),
            None => None,
        }
    } else if crate::text::str_equal(value_type, "int64") {
        match value_int {
            Some(x) => Some(MetricValue::Int64(x)),
            None => None,
        }
    } else if crate::text::str_equal(value_type, "string") {
        match value_text {
            Some(x) => Some(MetricValue::String(x)),
            None => None,
        }
    } else if crate::text::str_equal(value_type, "boolean") {
        match value_bool {
            Some(x) => Some(MetricValue::Boolean(x)),
            None => None,
        }
    } else if crate::text::str_equal(value_type, "json") {
        match value_json {
            Some(x) => Some(MetricValue::Json(x)),
            None => None,
        }
    } else {
        None
    };
    match decoded {
        Some(v) => Ok(v),
        None => {
            let mut m = String::new();
            m.append("metric '");
            m.append(event_id);
            m.append("' has invalid value_type '");
            m.append(value_type);
            m.append("' or missing value");
            Err(PersistenceError::CorruptData(m))
        },
    }
}

/// Law: a stored sample reads back as the value it was written from.
pub proof fn lemma_stored_metric_round_trips(v: MetricValue)
    ensures
        stored_metric(metric_type(v), columns_of(v)) == Some(v),
{
    reveal_strlit("float64");
    reveal_strlit("int64");
    reveal_strlit("string");
    reveal_strlit("boolean");
    reveal_strlit("json");
    assert("float64"@[0] != "int64"@[0] && "float64"@[0] != "string"@[0]);
    assert("int64"@[0] != "string"@[0] && "int64"@[0] != "boolean"@[0]);
    assert("string"@[0] != "boolean"@[0] && "string"@[0] != "json"@[0]);
    assert("boolean"@[0] != "json"@[0] && "boolean"@[0] != "float64"@[0]);
    assert("json"@[0] != "float64"@[0] && "json"@[0] != "int64"@[0]);
}

// ------------------------------------------------------------ event recording

/// Why an event is not stored: it is older than the retained rollup history
/// (`HistoryExpired`), its device is unknown (`NotFound`), or it was emitted
/// under a contract other than the device's assigned one (`NotFound`).
pub open spec fn event_admission(
    occurred_at: i128,
    rollup_retained_since: i128,
    device_found: bool,
    desired_contract_id: Option<Seq<char>>,
    contract_id: Seq<char>,
) -> Option<PersistenceError> {
    if occurred_at < rollup_retained_since {
        Some(PersistenceError::HistoryExpired)
    } else if !device_found || desired_contract_id != Some(contract_id) {
        Some(PersistenceError::NotFound)
    } else {
        None
    }
}

/// Checks an event before it is stored. Instants are UTC nanoseconds since
/// the Unix epoch; `device_found` and `desired_contract_id` are what the
/// adapter read under the device lock.
pub fn check_event_admission(
    occurred_at: i128,
    rollup_retained_since: i128,
    device_found: bool,
    desired_contract_id: Option<&str>,
    contract_id: &str,
) -> (r: Result<(), PersistenceError>)
    ensures
        r is Ok <==> event_admission(
            occurred_at,
            rollup_retained_since,
            device_found,
            match desired_contract_id { Some(s) => Some(s@), None => None },
            contract_id@,
        ) is None,
        r matches Err(e) ==> Some(e) == event_admission(
            occurred_at,
            rollup_retained_since,
            device_found,
            match desired_contract_id { Some(s) => Some(s@), None => None },
            contract_id@,
        ),
{
    if occurred_at < rollup_retained_since {
        return Err(PersistenceError::HistoryExpired);
    }
    if !device_found {
        return Err(PersistenceError::NotFound);
    }
    match desired_contract_id {
        Some(desired) => if crate::text::str_equal(desired, contract_id) {
            Ok(())
        } else {
            Err(PersistenceError::NotFound)
        },
        None => Err(PersistenceError::NotFound),
    }
}

/// Law: an event is admitted only when it is no older than the retained
/// rollup history, its device exists, and it was emitted under the device's
/// assigned contract; any such event is admitted.
pub proof fn lemma_event_admission(
    occurred_at: i128,
    rollup_retained_since: i128,
    device_found: bool,
    desired_contract_id: Option<Seq<char>>,
    contract_id: Seq<char>,
)
    ensures
        event_admission(occurred_at, rollup_retained_since, device_found, desired_contract_id, contract_id)
            is None <==> (occurred_at >= rollup_retained_since && device_found && desired_contract_id
            == Some(contract_id)),
        occurred_at < rollup_retained_since ==> event_admission(
            occurred_at,
            rollup_retained_since,
            device_found,
            desired_contract_id,
            contract_id,
        ) == Some(PersistenceError::HistoryExpired),
{
}

/// The outcome of recording an event whose delivery receipt was or was not
/// new. A duplicate event ID stores nothing and reports nothing.
pub fn event_outcome(receipt_inserted: bool, metrics_recorded: usize, actions_enqueued: usize) -> (r:
    RecordDeviceEventOutcome)
    ensures
        r.recorded == receipt_inserted,
        receipt_inserted ==> r.metrics_recorded == metrics_recorded && r.actions_enqueued
            == actions_enqueued,
        !receipt_inserted ==> r.metrics_recorded == 0 && r.actions_enqueued == 0,
{
    if receipt_inserted {
        RecordDeviceEventOutcome { recorded: true, metrics_recorded, actions_enqueued }
    } else {
        RecordDeviceEventOutcome { recorded: false, metrics_recorded: 0, actions_enqueued: 0 }
    }
}

/// Metric history can be read from `since` (inclusive) until `before`
/// (exclusive) only when no part of that window precedes the raw retention
/// watermark. Instants are UTC nanoseconds since the Unix epoch.
pub fn check_metric_history(since: Option<i128>, before: Option<i128>, raw_retained_since: i128) -> (r:
    Result<(), PersistenceError>)
    ensures
        r is Err <==> ((since matches Some(s) && s < raw_retained_since) || (before matches Some(b)
            && b <= raw_retained_since)),
        r matches Err(e) ==> e is HistoryExpired,
{
    let too_early = match since {
        Some(s) => s < raw_retained_since,
        None => false,
    };
    let ends_too_early = match before {
        Some(b) => b <= raw_retained_since,
        None => false,
    };
    if too_early || ends_too_early {
        Err(PersistenceError::HistoryExpired)
    } else {
        Ok(())
    }
}

} // verus!
