//! Process configuration as the core consumes it: which backend the
//! manager builds, where device files live, and whether fake devices are
//! enabled at all. Reading and merging configuration files is the
//! caller's concern; the core only holds the resulting plain values.

use vstd::prelude::*;

verus! {

/// The device policy the manager is constructed with.
#[derive(Debug)]
pub struct DeviceConfig {
    pub use_fake: bool,
    pub fake_device_location: String,
    pub fake_device_type: String,
}

impl DeviceConfig {
    /// An exact copy of this configuration.
    pub fn duplicate(&self) -> (r: Self)
        ensures
            r.use_fake == self.use_fake,
            r.fake_device_location@ == self.fake_device_location@,
            r.fake_device_type@ == self.fake_device_type@,
    {
        DeviceConfig {
            use_fake: self.use_fake,
            fake_device_location: self.fake_device_location.clone(),
            fake_device_type: self.fake_device_type.clone(),
        }
    }
}

/// The whole configuration the process consumes.
#[derive(Debug)]
pub struct MinistoreConfig {
    pub devices: DeviceConfig,
}

/// The values read once from the process environment.
#[derive(Debug)]
pub struct EnvironmentVariables {
    pub server_addr: String,
    pub server_port: String,
    pub log_level: String,
}

} // verus!
