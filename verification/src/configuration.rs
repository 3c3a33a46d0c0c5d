//! Device configuration reads: how the joined device and configuration rows
//! are interpreted.
use vstd::prelude::*;
use crate::error::PersistenceError;
use crate::json::Json;
use chrono::NaiveDateTime;

verus! {

/// What a configuration read finds for one device.
#[derive(Debug)]
pub enum DeviceConfigLookup {
    DeviceNotFound,
    /// The device exists and has no configuration.
    NoConfiguration,
    Found { config: Json, updated_at: NaiveDateTime },
}

/// Message of the failure reported when the join returns only half of a configuration.
pub const PARTIAL_CONFIG_MESSAGE: &'static str = "device configuration join returned partial data";

/// Interprets the row of a device left-joined with its configuration: no row
/// means no device, an empty configuration side means no configuration, a
/// full one is the configuration, and a half-filled one is corrupt data.
pub fn interpret_config_row(row: Option<(Option<Json>, Option<NaiveDateTime>)>) -> (r: Result<
    DeviceConfigLookup,
    PersistenceError,
>)
    ensures
        match row {
            None => r matches Ok(DeviceConfigLookup::DeviceNotFound),
            Some((None, None)) => r matches Ok(DeviceConfigLookup::NoConfiguration),
            Some((Some(c), Some(t))) => r matches Ok(DeviceConfigLookup::Found { config, updated_at })
                && config == c && updated_at == t,
            Some(_) => r matches Err(e) && e is CorruptData && e->CorruptData_0@
                == PARTIAL_CONFIG_MESSAGE@,
        },
{
    match row {
        None => Ok(DeviceConfigLookup::DeviceNotFound),
        Some((None, None)) => Ok(DeviceConfigLookup::NoConfiguration),
        Some((Some(config), Some(updated_at))) => Ok(DeviceConfigLookup::Found { config, updated_at }),
        Some(_) => Err(PersistenceError::CorruptData(PARTIAL_CONFIG_MESSAGE.to_owned())),
    }
}

} // verus!
