//! Business rules of the Extrittio backend: pagination, persistence error
//! taxonomy, firmware and OTA policy, device shadows, rule-action outbox
//! envelopes, and the decisions that persistence adapters take inside their
//! transactions.
pub mod alerts;
pub mod analytics;
pub mod blueprints;
pub mod configuration;
pub mod db_errors;
pub mod device_types;
pub mod devices;
pub mod error;
pub mod events;
pub mod firmware;
pub mod fleets;
pub mod ids;
pub mod json;
pub mod lifecycle;
pub mod outbox;
pub mod pagination;
pub mod roles;
pub mod rule_actions;
pub mod rule_snapshots;
pub mod rules;
pub mod shadows;
pub mod telemetry;
pub mod tenant;
pub mod text;
pub mod time;
pub mod users;
pub mod zones;
