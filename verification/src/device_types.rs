//! Device type records.
use vstd::prelude::*;

verus! {

#[derive(Debug, Clone, PartialEq, Eq)]
pub struct DeviceTypeRecord {
    pub id: i32,
    pub name: String,
    pub icon: String,
    pub color_hex: String,
}

#[derive(Debug, Clone, PartialEq, Eq)]
pub struct DeviceTypeList {
    pub records: Vec<DeviceTypeRecord>,
    pub total: i64,
}

#[derive(Debug, Clone, PartialEq, Eq)]
pub struct CreateDeviceTypeRecord {
    pub name: String,
    pub icon: String,
    pub color_hex: String,
}

#[derive(Debug, Clone, PartialEq, Eq)]
pub struct UpdateDeviceTypeRecord {
    pub name: Option<String>,
    pub icon: Option<String>,
    pub color_hex: Option<String>,
}

#[derive(Debug, Clone, PartialEq, Eq)]
pub enum DeleteDeviceTypeOutcome {
    Deleted,
    NotFound,
    InUse { device_count: i64 },
}

/// Whether a device type is deleted: a missing type is `NotFound`, a type
/// that devices still use is `InUse` with their count, any other is deleted.
pub fn decide_device_type_delete(found: bool, device_count: i64) -> (r: DeleteDeviceTypeOutcome)
    ensures
        !found ==> r == DeleteDeviceTypeOutcome::NotFound,
        found && device_count > 0 ==> r == (DeleteDeviceTypeOutcome::InUse { device_count }),
        found && device_count <= 0 ==> r == DeleteDeviceTypeOutcome::Deleted,
{
    if !found {
        DeleteDeviceTypeOutcome::NotFound
    } else if device_count > 0 {
        DeleteDeviceTypeOutcome::InUse { device_count }
    } else {
        DeleteDeviceTypeOutcome::Deleted
    }
}

} // verus!
