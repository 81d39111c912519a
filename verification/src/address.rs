//! Addresses of the devices that take part in sessions.

use vstd::prelude::*;

verus! {

/// The number of a device of a user.
#[derive(Clone, Copy, Debug, PartialEq, Eq, Structural)]
pub struct DeviceId(pub u32);

impl From<u32> for DeviceId {
    fn from(value: u32) -> (res: Self) {
        DeviceId(value)
    }
}

impl vstd::std_specs::convert::FromSpecImpl<u32> for DeviceId {
    open spec fn obeys_from_spec() -> bool {
        true
    }

    open spec fn from_spec(v: u32) -> Self {
        DeviceId(v)
    }
}

/// The address of a device: a user name and a device number.
#[derive(Debug)]
pub struct ProtocolAddress {
    pub name: String,
    pub device_id: DeviceId,
}

impl View for ProtocolAddress {
    type V = (Seq<char>, DeviceId);

    open spec fn view(&self) -> (Seq<char>, DeviceId) {
        (self.name@, self.device_id)
    }
}

impl Clone for ProtocolAddress {
    fn clone(&self) -> (res: Self)
        ensures
            res@ == self@,
    {
        ProtocolAddress { name: self.name.clone(), device_id: self.device_id }
    }
}

impl ProtocolAddress {
    /// The address of device `device_id` of `name`.
    pub fn new(name: String, device_id: DeviceId) -> (res: Self)
        ensures
            res.name@ == name@,
            res.device_id == device_id,
    {
        ProtocolAddress { name, device_id }
    }
}

} // verus!
