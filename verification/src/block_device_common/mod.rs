//! The closed set of backend kinds a device can be built as, and the
//! mapping from the configured type string to a kind.

pub mod data_type;
pub mod device_info;

use vstd::prelude::*;
use crate::error::DeviceError;

verus! {

/// Which backend implementation a device uses. The set is closed: the
/// factory and the snapshot format both dispatch on this tag.
#[derive(Debug, Clone, Copy, PartialEq, Eq, Structural)]
pub enum BlockDeviceType {
    SimpleFakeDevice,
    AsyncSimpleFakeDevice,
}

impl BlockDeviceType {
    /// Whether this backend kind performs its I/O asynchronously.
    pub fn is_async(&self) -> (r: bool)
        ensures
            r == (*self is AsyncSimpleFakeDevice),
    {
        match self {
            BlockDeviceType::SimpleFakeDevice => false,
            BlockDeviceType::AsyncSimpleFakeDevice => true,
        }
    }

    /// Whether this backend kind performs its I/O synchronously.
    pub fn is_sync(&self) -> (r: bool)
        ensures
            r == (*self is SimpleFakeDevice),
    {
        !self.is_async()
    }
}

/// The backend kind a configured device-type string names, if any.
/// Exactly "SimpleFake" and "AsyncSimpleFake" name one.
pub open spec fn spec_device_type_of_str(s: Seq<char>) -> Option<BlockDeviceType> {
    if s == "SimpleFake"@ {
        Some(BlockDeviceType::SimpleFakeDevice)
    } else if s == "AsyncSimpleFake"@ {
        Some(BlockDeviceType::AsyncSimpleFakeDevice)
    } else {
        None
    }
}

/// Parses a configured device-type string. Exactly "SimpleFake" and
/// "AsyncSimpleFake" are accepted; anything else is an unknown type.
pub fn str_to_block_device_type(value: &str) -> (r: Result<BlockDeviceType, DeviceError>)
    ensures
        spec_device_type_of_str(value@) matches Some(t) ==> r == Ok::<
            BlockDeviceType,
            DeviceError,
        >(t),
        spec_device_type_of_str(value@) is None ==> r == Err::<BlockDeviceType, DeviceError>(
            DeviceError::UnknownDeviceType,
        ),
{
    proof {
        reveal_strlit("SimpleFake");
        reveal_strlit("AsyncSimpleFake");
        assert("SimpleFake"@.len() == 10);
        assert("AsyncSimpleFake"@.len() == 15);
    }
    if str_eq(value, "SimpleFake") {
        Ok(BlockDeviceType::SimpleFakeDevice)
    } else if str_eq(value, "AsyncSimpleFake") {
        Ok(BlockDeviceType::AsyncSimpleFakeDevice)
    } else {
        Err(DeviceError::UnknownDeviceType)
    }
}

/// Character-wise equality of two string slices.
fn str_eq(a: &str, b: &str) -> (r: bool)
    ensures
        r == (a@ == b@),
{
    let a_owned = a.to_owned();
    let b_owned = b.to_owned();
    a_owned == b_owned
}

} // verus!
