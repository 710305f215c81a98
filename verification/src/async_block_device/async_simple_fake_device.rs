//! The in-memory backend served through the asynchronous service path: a
//! descriptor plus a block vector, every block unmapped at construction.
//! Unlike the factory-built backend, its constructor takes the requested
//! backend kind and refuses any kind but its own.

use vstd::prelude::*;
use crate::block_device::BlockDevice;
use crate::block_device_common::BlockDeviceType;
use crate::block_device_common::data_type::{is_unmap_block, Data, DataBlock, BLOCK_SIZE};
use crate::block_device_common::device_info::{DeviceInfo, DeviceInfoView};
use crate::error::DeviceError;
use crate::snapshot::{decode_snapshot, encode_snapshot};

verus! {

/// An in-memory device for the asynchronous service path.
#[derive(Debug)]
pub struct AsyncSimpleFakeDevice {
    device_info: DeviceInfo,
    data: Data,
}

impl AsyncSimpleFakeDevice {
    /// Builds a fresh device of `size` bytes, every block unmapped.
    /// Fails with `TypeMismatch` when asked for any other backend kind,
    /// and with `UnalignedSize` exactly when the size is not a multiple
    /// of the block size.
    pub fn new(device_type: BlockDeviceType, name: String, size: u64) -> (r: Result<
        Self,
        DeviceError,
    >)
        requires
            size / (BLOCK_SIZE as u64) <= usize::MAX,
        ensures
            !(device_type is AsyncSimpleFakeDevice) ==> r == Err::<Self, DeviceError>(
                DeviceError::TypeMismatch,
            ),
            device_type is AsyncSimpleFakeDevice && size % (BLOCK_SIZE as u64) != 0 ==> r
                == Err::<Self, DeviceError>(DeviceError::UnalignedSize),
            device_type is AsyncSimpleFakeDevice && size % (BLOCK_SIZE as u64) == 0 ==> (
            r matches Ok(d) && d.inv() && d.info_view() == (DeviceInfoView {
                device_type: BlockDeviceType::AsyncSimpleFakeDevice,
                name: name@,
                device_size: size,
                num_blocks: (size / (BLOCK_SIZE as u64)) as u64,
            }) && d.data_view().len() == size / (BLOCK_SIZE as u64) && forall|i: int|
                0 <= i < d.data_view().len() ==> is_unmap_block(#[trigger] d.data_view()[i])),
    {
        if device_type.is_sync() {
            return Err(DeviceError::TypeMismatch);
        }
        let device_info = match DeviceInfo::new(
            BlockDeviceType::AsyncSimpleFakeDevice,
            name,
            size,
        ) {
            Ok(info) => info,
            Err(e) => {
                return Err(e);
            },
        };
        let num_blocks = device_info.num_blocks();
        let data = Data::new(num_blocks as usize);
        Ok(Self { device_info, data })
    }

    /// Whether `[lba, lba + num_blocks)` is a non-empty range of blocks
    /// this device holds.
    fn is_valid_range(&self, lba: u64, num_blocks: u64) -> (r: bool)
        ensures
            r == crate::block_device_common::data_type::spec_valid_range(
                lba,
                num_blocks,
                self.info_view().num_blocks,
            ),
    {
        crate::block_device_common::data_type::is_valid_transfer(
            lba,
            num_blocks,
            self.device_info.num_blocks(),
        )
    }
}

impl BlockDevice for AsyncSimpleFakeDevice {
    closed spec fn inv(&self) -> bool {
        &&& self.device_info@.wf()
        &&& self.data@.len() == self.device_info@.num_blocks
    }

    closed spec fn info_view(&self) -> DeviceInfoView {
        self.device_info@
    }

    closed spec fn data_view(&self) -> Seq<DataBlock> {
        self.data@
    }

    open spec fn backend_type() -> BlockDeviceType {
        BlockDeviceType::AsyncSimpleFakeDevice
    }

    fn info(&self) -> (r: &DeviceInfo) {
        &self.device_info
    }

    fn write(&mut self, lba: u64, num_blocks: u64, buffer: Vec<DataBlock>) -> (r: Result<
        (),
        DeviceError,
    >) {
        if !self.is_valid_range(lba, num_blocks) {
            return Err(DeviceError::InvalidRange);
        }
        if (buffer.len() as u64) < num_blocks {
            return Err(DeviceError::InsufficientBuffer);
        }
        self.data.write_range(lba, num_blocks, &buffer);
        Ok(())
    }

    fn read(&mut self, lba: u64, num_blocks: u64) -> (r: Result<Vec<DataBlock>, DeviceError>) {
        if !self.is_valid_range(lba, num_blocks) {
            return Err(DeviceError::InvalidRange);
        }
        Ok(self.data.read_range(lba, num_blocks))
    }

    fn load(&mut self, snapshot: &Vec<u8>) -> (r: Result<(), DeviceError>) {
        let (info, data) = match decode_snapshot(snapshot) {
            Ok(decoded) => decoded,
            Err(e) => {
                return Err(e);
            },
        };
        if info.device_type() != BlockDeviceType::AsyncSimpleFakeDevice {
            return Err(DeviceError::TypeMismatch);
        }
        self.device_info = info;
        self.data = data;
        Ok(())
    }

    fn flush(&self) -> (r: Result<Vec<u8>, DeviceError>) {
        Ok(encode_snapshot(&self.device_info, &self.data))
    }
}

} // verus!
