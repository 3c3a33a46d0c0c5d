//! Alert lifecycle decisions that persistence adapters take while holding the
//! device row lock: manual transitions and idempotent creation by rules.
use vstd::prelude::*;

verus! {

/// A manual change of an alert's status.
#[derive(Debug, Clone, Copy, PartialEq, Eq, Structural)]
pub enum AlertTransition {
    Acknowledge,
    Resolve,
    Reactivate,
}

/// How a timestamp column changes: kept, set to the transition instant, or cleared.
#[derive(Debug, Clone, Copy, PartialEq, Eq, Structural)]
pub enum StampChange {
    Keep,
    SetNow,
    Clear,
}

/// The row change a transition makes.
#[derive(Debug, Clone, Copy, PartialEq, Eq)]
pub struct AlertChange {
    pub status: &'static str,
    pub acknowledged_at: StampChange,
    pub resolved_at: StampChange,
}

/// What happens to the cooldown of the alert's rule on its device.
#[derive(Debug, Clone, Copy, PartialEq, Eq, Structural)]
pub enum CooldownEffect {
    /// The cooldown row is left as it is.
    Keep,
    /// The cooldown restarts at the transition instant.
    Restart,
    /// The cooldown row is deleted, so the rule may fire again at once.
    Clear,
}

/// Status written by a transition.
pub open spec fn transition_status(t: AlertTransition) -> Seq<char> {
    match t {
        AlertTransition::Acknowledge => "acknowledged"@,
        AlertTransition::Resolve => "resolved"@,
        AlertTransition::Reactivate => "active"@,
    }
}

/// Acknowledging stamps `acknowledged_at`; resolving stamps `resolved_at`;
/// reactivating clears both.
pub open spec fn transition_stamps(t: AlertTransition) -> (StampChange, StampChange) {
    match t {
        AlertTransition::Acknowledge => (StampChange::SetNow, StampChange::Keep),
        AlertTransition::Resolve => (StampChange::Keep, StampChange::SetNow),
        AlertTransition::Reactivate => (StampChange::Clear, StampChange::Clear),
    }
}

/// Resolving a rule's alert restarts the rule's cooldown; reactivating it
/// clears the cooldown; alerts without a rule have none.
pub open spec fn transition_cooldown(t: AlertTransition, has_rule: bool) -> CooldownEffect {
    if !has_rule {
        CooldownEffect::Keep
    } else {
        match t {
            AlertTransition::Acknowledge => CooldownEffect::Keep,
            AlertTransition::Resolve => CooldownEffect::Restart,
            AlertTransition::Reactivate => CooldownEffect::Clear,
        }
    }
}

/// The row change of a transition.
pub fn alert_change(t: AlertTransition) -> (c: AlertChange)
    ensures
        c.status@ == transition_status(t),
        (c.acknowledged_at, c.resolved_at) == transition_stamps(t),
{
    match t {
        AlertTransition::Acknowledge => AlertChange {
            status: "acknowledged",
            acknowledged_at: StampChange::SetNow,
            resolved_at: StampChange::Keep,
        },
        AlertTransition::Resolve => AlertChange {
            status: "resolved",
            acknowledged_at: StampChange::Keep,
            resolved_at: StampChange::SetNow,
        },
        AlertTransition::Reactivate => AlertChange {
            status: "active",
            acknowledged_at: StampChange::Clear,
            resolved_at: StampChange::Clear,
        },
    }
}

/// What an adapter read about one alert transition. `status_accepted` and
/// `requires_active_slot` are the transition's own answers for the locked
/// status; `conflicting_alert` is another active or acknowledged alert of
/// the same rule and device, newest first.
pub struct AlertTransitionFacts {
    pub alert_found: bool,
    pub device_found: bool,
    pub locked_status: Option<String>,
    pub status_accepted: bool,
    pub requires_active_slot: bool,
    pub rule_id: Option<String>,
    pub conflicting_alert: Option<String>,
}

/// The decision on one alert transition.
pub enum AlertTransitionDecision {
    NotFound,
    /// The transition does not accept the alert's current status.
    InvalidStatus(String),
    /// Another alert already holds the rule's active slot on the device.
    ActiveConflict(String),
    Apply { change: AlertChange, cooldown: CooldownEffect },
}

/// An alert that vanished, whose device is gone, or that was not found is
/// `NotFound`; a status the transition refuses is `InvalidStatus`; a
/// transition that needs the active slot while another alert of the same
/// rule holds it is `ActiveConflict`; otherwise the change is applied.
pub fn decide_alert_transition(t: AlertTransition, facts: AlertTransitionFacts) -> (r:
    AlertTransitionDecision)
    ensures
        (!facts.alert_found || !facts.device_found || facts.locked_status is None) ==> r is NotFound,
        facts.alert_found && facts.device_found && facts.locked_status is Some ==> {
            if !facts.status_accepted {
                r matches AlertTransitionDecision::InvalidStatus(s) && s == facts.locked_status->0
            } else if facts.requires_active_slot && facts.rule_id is Some
                && facts.conflicting_alert is Some {
                r matches AlertTransitionDecision::ActiveConflict(id) && id
                    == facts.conflicting_alert->0
            } else {
                r matches AlertTransitionDecision::Apply { change, cooldown } && change.status@
                    == transition_status(t) && (change.acknowledged_at, change.resolved_at)
                    == transition_stamps(t) && cooldown == transition_cooldown(
                    t,
                    facts.rule_id is Some,
                )
            }
        },
{
    let AlertTransitionFacts {
        alert_found,
        device_found,
        locked_status,
        status_accepted,
        requires_active_slot,
        rule_id,
        conflicting_alert,
    } = facts;
    if !alert_found || !device_found {
        return AlertTransitionDecision::NotFound;
    }
    let status = match locked_status {
        Some(s) => s,
        None => return AlertTransitionDecision::NotFound,
    };
    if !status_accepted {
        return AlertTransitionDecision::InvalidStatus(status);
    }
    let has_rule = rule_id.is_some();
    if requires_active_slot && has_rule {
        match conflicting_alert {
            Some(id) => return AlertTransitionDecision::ActiveConflict(id),
            None => {},
        }
    }
    let cooldown = if !has_rule {
        CooldownEffect::Keep
    } else {
        match t {
            AlertTransition::Acknowledge => CooldownEffect::Keep,
            AlertTransition::Resolve => CooldownEffect::Restart,
            AlertTransition::Reactivate => CooldownEffect::Clear,
        }
    };
    AlertTransitionDecision::Apply { change: alert_change(t), cooldown }
}

/// How a rule's request to raise an alert is served.
#[derive(Debug, Clone, PartialEq, Eq)]
pub enum AlertCreation {
    /// The delivery was already applied; its earlier answer stands.
    AlreadyDelivered,
    /// An existing alert answers the delivery, which is recorded against it.
    Reuse { alert_id: String },
    /// A new alert with the delivery's identifier is inserted and recorded.
    Insert { alert_id: String },
}

/// The alert that answers a creation request: an applied delivery keeps its
/// answer; otherwise an alert already stored under the requested identifier,
/// then the newest active or acknowledged alert of the same rule and device,
/// and only when neither exists a new alert.
pub open spec fn alert_creation(
    delivery_applied: bool,
    same_id_exists: bool,
    active_alert: Option<Seq<char>>,
    record_id: Seq<char>,
) -> Option<(bool, Seq<char>)> {
    if delivery_applied {
        None
    } else if same_id_exists {
        Some((false, record_id))
    } else {
        match active_alert {
            Some(id) => Some((false, id)),
            None => Some((true, record_id)),
        }
    }
}

/// Decides how a rule's alert request is served, from what the adapter read
/// under the device lock.
pub fn decide_alert_creation(
    delivery_applied: bool,
    same_id_exists: bool,
    active_alert: Option<String>,
    record_id: &str,
) -> (r: AlertCreation)
    ensures
        match alert_creation(
            delivery_applied,
            same_id_exists,
            match active_alert { Some(s) => Some(s@), None => None },
            record_id@,
        ) {
            None => r is AlreadyDelivered,
            Some((true, id)) => r matches AlertCreation::Insert { alert_id } && alert_id@ == id,
            Some((false, id)) => r matches AlertCreation::Reuse { alert_id } && alert_id@ == id,
        },
{
    if delivery_applied {
        AlertCreation::AlreadyDelivered
    } else if same_id_exists {
        AlertCreation::Reuse { alert_id: record_id.to_owned() }
    } else {
        match active_alert {
            Some(id) => AlertCreation::Reuse { alert_id: id },
            None => AlertCreation::Insert { alert_id: record_id.to_owned() },
        }
    }
}

/// Law: a rule never raises a second open alert for a device: while an
/// active or acknowledged alert of the rule exists, a creation request is
/// answered by an existing alert and inserts nothing.
pub proof fn lemma_one_open_alert_per_rule_and_device(
    delivery_applied: bool,
    same_id_exists: bool,
    active_alert: Seq<char>,
    record_id: Seq<char>,
)
    ensures
        !(alert_creation(delivery_applied, same_id_exists, Some(active_alert), record_id)
            matches Some((true, _))),
{
}

} // verus!
