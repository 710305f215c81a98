//! The device descriptor: immutable-after-construction metadata that ties
//! a device's name and type to its size and block count.

use vstd::prelude::*;
use super::BlockDeviceType;
use super::data_type::BLOCK_SIZE;
use crate::error::DeviceError;

verus! {

/// The mathematical value of a descriptor: the name as a character
/// sequence, the rest as plain values.
pub struct DeviceInfoView {
    pub device_type: BlockDeviceType,
    pub name: Seq<char>,
    pub device_size: u64,
    pub num_blocks: u64,
}

/// A device descriptor. Invariant: the size is block-aligned and the block
/// count is exactly the size divided by the block size.
#[derive(Debug, Clone)]
pub struct DeviceInfo {
    device_type: BlockDeviceType,
    device_name: String,
    device_size: u64,
    num_blocks: u64,
}

impl View for DeviceInfo {
    type V = DeviceInfoView;

    closed spec fn view(&self) -> DeviceInfoView {
        DeviceInfoView {
            device_type: self.device_type,
            name: self.device_name@,
            device_size: self.device_size,
            num_blocks: self.num_blocks,
        }
    }
}

impl DeviceInfoView {
    /// The descriptor invariant every constructed descriptor satisfies.
    pub open spec fn wf(self) -> bool {
        &&& self.device_size % (BLOCK_SIZE as u64) == 0
        &&& self.num_blocks == self.device_size / (BLOCK_SIZE as u64)
    }
}

impl DeviceInfo {
    /// Builds a descriptor. Fails with `UnalignedSize` exactly when the
    /// size is not a multiple of the block size; performs no other
    /// validation (the name may be anything, the size may be zero).
    pub fn new(device_type: BlockDeviceType, device_name: String, device_size: u64) -> (r: Result<
        Self,
        DeviceError,
    >)
        ensures
            device_size % (BLOCK_SIZE as u64) != 0 ==> r == Err::<Self, DeviceError>(
                DeviceError::UnalignedSize,
            ),
            device_size % (BLOCK_SIZE as u64) == 0 ==> (r matches Ok(info) && info@.wf()
                && info@.device_type == device_type && info@.name == device_name@
                && info@.device_size == device_size),
    {
        if device_size % (BLOCK_SIZE as u64) != 0 {
            return Err(DeviceError::UnalignedSize);
        }
        Ok(
            Self {
                device_type,
                device_name,
                device_size,
                num_blocks: device_size / (BLOCK_SIZE as u64),
            },
        )
    }

    /// The device's name; it doubles as the on-disk file identifier.
    pub fn name(&self) -> (r: &String)
        ensures
            r@ == self@.name,
    {
        &self.device_name
    }

    /// The device's total size in bytes.
    pub fn device_size(&self) -> (r: u64)
        ensures
            r == self@.device_size,
    {
        self.device_size
    }

    /// How many blocks the device holds.
    pub fn num_blocks(&self) -> (r: u64)
        ensures
            r == self@.num_blocks,
    {
        self.num_blocks
    }

    /// Which backend kind the device was built as.
    pub fn device_type(&self) -> (r: BlockDeviceType)
        ensures
            r == self@.device_type,
    {
        self.device_type
    }
}

} // verus!
