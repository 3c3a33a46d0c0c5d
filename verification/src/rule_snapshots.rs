//! Decisions taken after rule evaluation: which actions are delivered through
//! the outbox and which update rule runtime state in the same transaction.
use vstd::prelude::*;
use crate::error::PersistenceError;
use crate::rule_actions::PendingAction;
use crate::text::str_equal;
use chrono::NaiveDateTime;

verus! {

/// The last time a rule fired for a device, which starts its cooldown.
pub struct CooldownRecord {
    pub tenant_id: String,
    pub rule_id: String,
    pub device_id: String,
    pub last_fired_at: NaiveDateTime,
}

/// Entry of a device into a rule's zone (`Some`) or its exit (`None`).
pub struct ZoneEntryMutation {
    pub tenant_id: String,
    pub rule_id: String,
    pub device_id: String,
    pub entered_at: Option<NaiveDateTime>,
}

/// The outcome of one evaluation: actions to deliver and runtime rows to write.
pub struct DeviceRuleDecision {
    pub deliveries: Vec<PendingAction>,
    pub cooldowns: Vec<CooldownRecord>,
    pub zone_entries: Vec<ZoneEntryMutation>,
}

/// The actions that are delivered: all but cooldown and zone-entry updates, in order.
pub open spec fn deliveries_of(s: Seq<PendingAction>) -> Seq<PendingAction>
    decreases s.len(),
{
    if s.len() == 0 {
        Seq::empty()
    } else {
        let rest = deliveries_of(s.drop_last());
        match s.last() {
            PendingAction::UpdateCooldown { .. } => rest,
            PendingAction::UpdateZoneEntry { .. } => rest,
            a => rest.push(a),
        }
    }
}

/// The cooldown rows written, one per cooldown update, in order.
pub open spec fn cooldowns_of(s: Seq<PendingAction>) -> Seq<CooldownRecord>
    decreases s.len(),
{
    if s.len() == 0 {
        Seq::empty()
    } else {
        let rest = cooldowns_of(s.drop_last());
        match s.last() {
            PendingAction::UpdateCooldown { tenant_id, rule_id, device_id, fired_at } => rest.push(
                CooldownRecord { tenant_id, rule_id, device_id, last_fired_at: fired_at },
            ),
            _ => rest,
        }
    }
}

/// The zone-entry rows written, one per zone-entry update, in order.
pub open spec fn zone_entries_of(s: Seq<PendingAction>) -> Seq<ZoneEntryMutation>
    decreases s.len(),
{
    if s.len() == 0 {
        Seq::empty()
    } else {
        let rest = zone_entries_of(s.drop_last());
        match s.last() {
            PendingAction::UpdateZoneEntry { tenant_id, rule_id, device_id, entered_at } => rest.push(
                ZoneEntryMutation { tenant_id, rule_id, device_id, entered_at },
            ),
            _ => rest,
        }
    }
}

/// Splits evaluated actions into outbox deliveries, cooldown rows and
/// zone-entry rows, keeping the order of each.
pub fn partition_actions(actions: Vec<PendingAction>) -> (d: DeviceRuleDecision)
    ensures
        d.deliveries@ == deliveries_of(actions@),
        d.cooldowns@ == cooldowns_of(actions@),
        d.zone_entries@ == zone_entries_of(actions@),
{
    let ghost all = actions@;
    let mut remaining = actions;
    let mut decision = DeviceRuleDecision {
        deliveries: Vec::new(),
        cooldowns: Vec::new(),
        zone_entries: Vec::new(),
    };
    let ghost mut k: int = 0;
    proof {
        assert(all.take(0) =~= Seq::<PendingAction>::empty());
    }
    while remaining.len() > 0
        invariant
            0 <= k <= all.len(),
            remaining@ == all.skip(k),
            decision.deliveries@ == deliveries_of(all.take(k)),
            decision.cooldowns@ == cooldowns_of(all.take(k)),
            decision.zone_entries@ == zone_entries_of(all.take(k)),
        decreases remaining@.len(),
    {
        let action = remaining.remove(0);
        proof {
            assert(action == all[k]);
            assert(all.take(k + 1).drop_last() =~= all.take(k));
            assert(all.take(k + 1).last() == all[k]);
            assert(remaining@ =~= all.skip(k + 1));
        }
        match action {
            PendingAction::UpdateCooldown { tenant_id, rule_id, device_id, fired_at } => {
                decision.cooldowns.push(
                    CooldownRecord { tenant_id, rule_id, device_id, last_fired_at: fired_at },
                );
            },
            PendingAction::UpdateZoneEntry { tenant_id, rule_id, device_id, entered_at } => {
                decision.zone_entries.push(
                    ZoneEntryMutation { tenant_id, rule_id, device_id, entered_at },
                );
            },
            delivery => {
                decision.deliveries.push(delivery);
            },
        }
        proof {
            k = k + 1;
        }
    }
    proof {
        assert(all.take(k) =~= all);
    }
    decision
}

/// Law: partitioning loses and invents no action: every action becomes
/// exactly one delivery, cooldown row or zone-entry row.
pub proof fn lemma_partition_preserves_count(s: Seq<PendingAction>)
    ensures
        deliveries_of(s).len() + cooldowns_of(s).len() + zone_entries_of(s).len() == s.len(),
    decreases s.len(),
{
    if s.len() > 0 {
        lemma_partition_preserves_count(s.drop_last());
    }
}

/// Message of the failure reported when a prepared evaluation names another
/// tenant or device than the ingress that carries it.
pub const SCOPE_MISMATCH_MESSAGE: &'static str = "rule evaluation scope does not match ingress";

/// A prepared evaluation may only run inside the ingress of its own tenant
/// and device; any other pairing is corrupt data.
pub fn check_evaluation_scope(plan_tenant: &str, plan_device: &str, tenant: &str, device: &str) -> (r:
    Result<(), PersistenceError>)
    ensures
        r is Ok <==> (plan_tenant@ == tenant@ && plan_device@ == device@),
        r matches Err(e) ==> e is CorruptData && e->CorruptData_0@ == SCOPE_MISMATCH_MESSAGE@,
{
    if !str_equal(plan_tenant, tenant) || !str_equal(plan_device, device) {
        return Err(PersistenceError::CorruptData(SCOPE_MISMATCH_MESSAGE.to_owned()));
    }
    Ok(())
}

/// The open alerts of a device that belong to a rule, as (rule, alert) pairs
/// in the order read; alerts raised without a rule are left out.
pub open spec fn rule_alert_pairs(rows: Seq<(Option<String>, String)>) -> Seq<(Seq<char>, Seq<char>)>
    decreases rows.len(),
{
    if rows.len() == 0 {
        Seq::empty()
    } else {
        let rest = rule_alert_pairs(rows.drop_last());
        match rows.last().0 {
            Some(rule) => rest.push((rule@, rows.last().1@)),
            None => rest,
        }
    }
}

/// Keeps the open alerts that belong to a rule, keyed by that rule.
pub fn open_alerts_by_rule(rows: Vec<(Option<String>, String)>) -> (r: Vec<(String, String)>)
    ensures
        r@.map_values(|p: (String, String)| (p.0@, p.1@)) == rule_alert_pairs(rows@),
{
    let ghost all = rows@;
    let mut out: Vec<(String, String)> = Vec::new();
    let mut remaining = rows;
    let ghost mut k: int = 0;
    proof {
        assert(all.take(0) =~= Seq::<(Option<String>, String)>::empty());
        assert(out@.map_values(|p: (String, String)| (p.0@, p.1@)) =~= Seq::empty());
    }
    while remaining.len() > 0
        invariant
            0 <= k <= all.len(),
            remaining@ == all.skip(k),
            out@.map_values(|p: (String, String)| (p.0@, p.1@)) == rule_alert_pairs(all.take(k)),
        decreases remaining@.len(),
    {
        let (rule, alert) = remaining.remove(0);
        proof {
            assert(all.take(k + 1).drop_last() =~= all.take(k));
            assert(all.take(k + 1).last() == all[k]);
            assert(remaining@ =~= all.skip(k + 1));
        }
        match rule {
            Some(rule) => {
                let ghost before = out@;
                out.push((rule, alert));
                proof {
                    assert(out@.map_values(|p: (String, String)| (p.0@, p.1@)) =~= before.map_values(
                        |p: (String, String)| (p.0@, p.1@),
                    ).push((all[k].0->0@, all[k].1@)));
                }
            },
            None => {},
        }
        proof {
            k = k + 1;
        }
    }
    proof {
        assert(all.take(k) =~= all);
    }
    out
}

} // verus!