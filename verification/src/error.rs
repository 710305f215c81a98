//! The error kinds the core can return. Every failure is a structured
//! value distinguishable by kind; the verified functions never panic.

use vstd::prelude::*;
use vstd::string::StringExecFns;

verus! {

/// Why a core operation failed.
#[derive(Debug, Clone, PartialEq, Eq)]
pub enum DeviceError {
    /// A device size that is not a multiple of the block size.
    UnalignedSize,
    /// A zero-length transfer, or one that runs past the last block.
    InvalidRange,
    /// A write with fewer buffer blocks than the transfer length.
    InsufficientBuffer,
    /// A create for a name the registry already holds.
    AlreadyExists,
    /// A request naming a device the registry does not hold.
    NotFound,
    /// A fake-device operation while fake devices are disabled.
    FeatureDisabled,
    /// A load when no backing snapshot exists.
    NoFile,
    /// A snapshot whose device type does not match the loading backend.
    TypeMismatch,
    /// A snapshot that does not decode as a device record.
    CorruptState,
    /// A filesystem error, with the underlying message.
    IoError(String),
    /// A kernel I/O ring completion error, with the underlying message.
    KernelIoError(String),
    /// A backend that cannot be constructed on this platform.
    UnsupportedPlatform,
    /// A configured device-type string naming no known backend.
    UnknownDeviceType,
    /// A backend kind the synchronous factory cannot construct.
    UnsupportedDeviceType,
}

impl DeviceError {
    /// The description `message` returns for each kind.
    pub open spec fn spec_message(self) -> Seq<char> {
        match self {
            DeviceError::UnalignedSize => "unaligned device size"@,
            DeviceError::InvalidRange => "invalid lba range"@,
            DeviceError::InsufficientBuffer => "not enough buffers provided"@,
            DeviceError::AlreadyExists => "device already exists"@,
            DeviceError::NotFound => "no such device"@,
            DeviceError::FeatureDisabled => "use_fake is false in configuration"@,
            DeviceError::NoFile => "no files to load"@,
            DeviceError::TypeMismatch => "loaded device file type is invalid"@,
            DeviceError::CorruptState => "device file is corrupt"@,
            DeviceError::IoError(m) => m@,
            DeviceError::KernelIoError(m) => m@,
            DeviceError::UnsupportedPlatform => "unsupported platform"@,
            DeviceError::UnknownDeviceType => "invalid block device type"@,
            DeviceError::UnsupportedDeviceType => "cannot create this device type"@,
        }
    }

    /// A human-readable description of the error.
    pub fn message(&self) -> (r: String)
        ensures
            r@ == self.spec_message(),
    {
        match self {
            DeviceError::UnalignedSize => String::from_str("unaligned device size"),
            DeviceError::InvalidRange => String::from_str("invalid lba range"),
            DeviceError::InsufficientBuffer => String::from_str("not enough buffers provided"),
            DeviceError::AlreadyExists => String::from_str("device already exists"),
            DeviceError::NotFound => String::from_str("no such device"),
            DeviceError::FeatureDisabled => String::from_str("use_fake is false in configuration"),
            DeviceError::NoFile => String::from_str("no files to load"),
            DeviceError::TypeMismatch => String::from_str("loaded device file type is invalid"),
            DeviceError::CorruptState => String::from_str("device file is corrupt"),
            DeviceError::IoError(m) => m.clone(),
            DeviceError::KernelIoError(m) => m.clone(),
            DeviceError::UnsupportedPlatform => String::from_str("unsupported platform"),
            DeviceError::UnknownDeviceType => String::from_str("invalid block device type"),
            DeviceError::UnsupportedDeviceType => String::from_str(
                "cannot create this device type",
            ),
        }
    }
}

} // verus!
