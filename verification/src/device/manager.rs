//! Devices and the device manager.
use crate::error::Error;
use crate::table::{is_registration, NameTable};
use std::collections::HashMap;
use vstd::prelude::*;

verus! {

/// Device type enumeration.
#[derive(Debug, Clone, Copy, PartialEq, Eq, Structural)]
pub enum DeviceType {
    I2C,
    SPI,
    GPIO,
}

/// Device status enumeration.
#[derive(Debug, Clone)]
pub enum DeviceStatus {
    Available,
    Unavailable,
    Error(String),
}

/// Device configuration.
#[derive(Debug, Clone)]
pub struct DeviceConfig {
    pub address: String,
    pub parameters: HashMap<String, String>,
}

/// A device.
#[derive(Debug, Clone)]
pub struct Device {
    pub id: String,
    pub device_type: DeviceType,
    pub status: DeviceStatus,
    pub config: DeviceConfig,
}

/// Whether two device statuses are the same.
pub open spec fn same_status(a: DeviceStatus, b: DeviceStatus) -> bool {
    match (a, b) {
        (DeviceStatus::Available, DeviceStatus::Available) => true,
        (DeviceStatus::Unavailable, DeviceStatus::Unavailable) => true,
        (DeviceStatus::Error(x), DeviceStatus::Error(y)) => x@ == y@,
        _ => false,
    }
}

/// Whether two devices hold the same id, type, status and configuration.
pub open spec fn same_device(a: Device, b: Device) -> bool {
    &&& a.id@ == b.id@
    &&& a.device_type == b.device_type
    &&& same_status(a.status, b.status)
    &&& a.config.address@ == b.config.address@
    &&& a.config.parameters@ == b.config.parameters@
}

impl DeviceStatus {
    /// A copy of the status.
    pub fn duplicate(&self) -> (r: Self)
        ensures
            same_status(r, *self),
    {
        match self {
            DeviceStatus::Available => DeviceStatus::Available,
            DeviceStatus::Unavailable => DeviceStatus::Unavailable,
            DeviceStatus::Error(m) => DeviceStatus::Error(m.clone()),
        }
    }
}

impl Device {
    /// A copy of the device.
    pub fn duplicate(&self) -> (r: Self)
        ensures
            same_device(r, *self),
    {
        Device {
            id: self.id.clone(),
            device_type: self.device_type,
            status: self.status.duplicate(),
            config: DeviceConfig { address: self.config.address.clone(), parameters: self.config.parameters.clone() },
        }
    }
}

/// Device manager: the registered devices, keyed by id. Discovery finds no devices yet.
#[derive(Debug)]
pub struct DeviceManager {
    pub devices: NameTable<Device>,
}

impl DeviceManager {
    /// The manager's invariant: device ids are distinct.
    pub open spec fn wf(&self) -> bool {
        self.devices.wf()
    }

    /// A manager without devices.
    pub fn new() -> (r: Self)
        ensures
            r.wf(),
            r.devices@ == Map::<Seq<char>, Device>::empty(),
    {
        DeviceManager { devices: NameTable::new() }
    }

    /// Discovers the available devices: none.
    pub fn discover_devices(&self) -> (r: Result<Vec<Device>, Error>)
        ensures
            r matches Ok(v) && v.len() == 0,
    {
        Ok(Vec::new())
    }

    /// Registers a device under its id, replacing a device registered with the same id.
    /// This always succeeds.
    pub fn register_device(&mut self, device: Device) -> (r: Result<(), Error>)
        requires
            old(self).wf(),
        ensures
            final(self).wf(),
            is_registration(old(self).devices, final(self).devices, device.id@, device),
            r is Ok,
    {
        let id = device.id.clone();
        self.devices.insert(id, device);
        Ok(())
    }

    /// A copy of the device registered with id `id`, or `None` when there is none.
    pub fn get_device(&self, id: &str) -> (r: Result<Option<Device>, Error>)
        requires
            self.wf(),
        ensures
            r matches Ok(d) && match d {
                Some(x) => self.devices@.contains_key(id@) && same_device(x, self.devices@[id@]),
                None => !self.devices@.contains_key(id@),
            },
    {
        match self.devices.get(id) {
            Some(d) => Ok(Some(d.duplicate())),
            None => Ok(None),
        }
    }
}

} // verus!
