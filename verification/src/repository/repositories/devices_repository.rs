//! The repository of devices.

use vstd::prelude::*;

use crate::repository::models::device::{device_known, Device};

verus! {

/// Devices.
///
/// The contracts speak of the rows, which a verified implementation
/// defines. One that is written outside verified code keeps the default, of
/// which nothing is known, and answers for the contracts itself.
pub trait DevicesRepository {
    /// The devices, in the order of their rows.
    open spec fn devices(&self) -> Seq<Device> {
        arbitrary()
    }

    /// The name of the user's device of that name, if they have one.
    fn devices_find_device_name(&self, user_id: i32, device_name: &str) -> (r: Option<String>)
        ensures
            match r {
                Some(name) => device_known(self.devices(), user_id, device_name@) && name@
                    == device_name@,
                None => !device_known(self.devices(), user_id, device_name@),
            },
    ;
}

} // verus!
