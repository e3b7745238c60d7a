//! Devices.

use vstd::prelude::*;

verus! {

/// A device that a user has logged in from.
#[derive(Debug)]
pub struct Device {
    pub id: i32,
    pub user_id: i32,
    pub name: String,
    pub last_access: i64,
    pub active: bool,
    pub public_key: String,
}

/// A device that has no row yet.
#[derive(Debug)]
pub struct NewDevice {
    pub user_id: i32,
    pub name: String,
    pub last_access: i64,
    pub active: bool,
    pub public_key: String,
}

/// The row that a new device gets under `id`.
pub open spec fn device_row(id: i32, device: NewDevice) -> Device {
    Device {
        id,
        user_id: device.user_id,
        name: device.name,
        last_access: device.last_access,
        active: device.active,
        public_key: device.public_key,
    }
}

/// Whether the user has a device of that name.
pub open spec fn device_known(devices: Seq<Device>, user_id: i32, name: Seq<char>) -> bool {
    exists|i: int|
        0 <= i < devices.len() && (#[trigger] devices[i]).user_id == user_id && devices[i].name@
            == name
}

} // verus!
