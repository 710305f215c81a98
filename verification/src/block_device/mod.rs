//! The block-device contract every backend implements, and the factory
//! that builds the backend a configured type tag asks for.

pub mod simple_fake_device;

use vstd::prelude::*;
use crate::block_device_common::BlockDeviceType;
use crate::block_device_common::data_type::{
    spec_read, spec_valid_range, spec_write, DataBlock, BLOCK_SIZE,
};
use crate::block_device_common::device_info::{DeviceInfo, DeviceInfoView};
use crate::error::DeviceError;
use crate::snapshot::{spec_block_views, spec_decode, spec_encode};
use simple_fake_device::SimpleFakeDevice;

verus! {

/// The contract every backend implements. A backend owns a descriptor and
/// behaves as a vector of blocks: `write` and `read` enforce the same
/// range and buffer preconditions, `flush` produces the snapshot record
/// holding the whole state, and `load` replaces the whole state from such
/// a record after checking the recorded backend type.
pub trait BlockDevice: Sized {
    /// The backend's internal invariant.
    spec fn inv(&self) -> bool;

    /// The descriptor the backend carries.
    spec fn info_view(&self) -> DeviceInfoView;

    /// The blocks the backend holds, by LBA.
    spec fn data_view(&self) -> Seq<DataBlock>;

    /// The backend kind a snapshot must record to be loaded here.
    spec fn backend_type() -> BlockDeviceType;

    /// The backend's descriptor.
    fn info(&self) -> (r: &DeviceInfo)
        requires
            self.inv(),
        ensures
            r@ == self.info_view(),
    ;

    /// Overwrites blocks `[lba, lba + num_blocks)` with the first
    /// `num_blocks` buffer entries. Rejects an empty or out-of-bounds
    /// range, then a too-small buffer, before touching any block.
    fn write(&mut self, lba: u64, num_blocks: u64, buffer: Vec<DataBlock>) -> (r: Result<
        (),
        DeviceError,
    >)
        requires
            old(self).inv(),
        ensures
            final(self).inv(),
            final(self).info_view() == old(self).info_view(),
            !spec_valid_range(lba, num_blocks, old(self).info_view().num_blocks) ==> (r == Err::<
                (),
                DeviceError,
            >(DeviceError::InvalidRange) && final(self).data_view() == old(self).data_view()),
            spec_valid_range(lba, num_blocks, old(self).info_view().num_blocks) && buffer@.len()
                < num_blocks ==> (r == Err::<(), DeviceError>(DeviceError::InsufficientBuffer)
                && final(self).data_view() == old(self).data_view()),
            spec_valid_range(lba, num_blocks, old(self).info_view().num_blocks) && buffer@.len()
                >= num_blocks ==> (r == Ok::<(), DeviceError>(()) && final(self).data_view()
                == spec_write(old(self).data_view(), lba as int, num_blocks as int, buffer@)),
    ;

    /// Returns blocks `[lba, lba + num_blocks)`, in LBA order. Rejects an
    /// empty or out-of-bounds range; the device state never changes.
    fn read(&mut self, lba: u64, num_blocks: u64) -> (r: Result<Vec<DataBlock>, DeviceError>)
        requires
            old(self).inv(),
        ensures
            final(self).inv(),
            final(self).info_view() == old(self).info_view(),
            final(self).data_view() == old(self).data_view(),
            !spec_valid_range(lba, num_blocks, old(self).info_view().num_blocks) ==> r == Err::<
                Vec<DataBlock>,
                DeviceError,
            >(DeviceError::InvalidRange),
            spec_valid_range(lba, num_blocks, old(self).info_view().num_blocks) ==> (r matches Ok(
                blocks,
            ) && blocks@ == spec_read(old(self).data_view(), lba as int, num_blocks as int)),
    ;

    /// Replaces the backend's whole state from a snapshot record. Fails
    /// with `CorruptState` on a record that does not decode, and with
    /// `TypeMismatch` on one recorded by another backend kind; in both
    /// cases the live state is untouched.
    fn load(&mut self, snapshot: &Vec<u8>) -> (r: Result<(), DeviceError>)
        requires
            old(self).inv(),
        ensures
            final(self).inv(),
            spec_decode(snapshot@) is None ==> (r == Err::<(), DeviceError>(
                DeviceError::CorruptState,
            ) && final(self).info_view() == old(self).info_view() && final(self).data_view()
                == old(self).data_view()),
            spec_decode(snapshot@) matches Some(snap) ==> ((snap.device_type
                != Self::backend_type() ==> (r == Err::<(), DeviceError>(
                DeviceError::TypeMismatch,
            ) && final(self).info_view() == old(self).info_view() && final(self).data_view()
                == old(self).data_view())) && (snap.device_type == Self::backend_type() ==> (r
                == Ok::<(), DeviceError>(()) && final(self).info_view() == (DeviceInfoView {
                device_type: snap.device_type,
                name: snap.name,
                device_size: snap.device_size,
                num_blocks: snap.num_blocks,
            }) && spec_block_views(final(self).data_view()) == snap.blocks))),
    ;

    /// Serializes the backend's whole state as one snapshot record, for
    /// the caller to persist.
    fn flush(&self) -> (r: Result<Vec<u8>, DeviceError>)
        requires
            self.inv(),
        ensures
            r matches Ok(b) && b@ == spec_encode(
                self.info_view(),
                spec_block_views(self.data_view()),
            ),
    ;
}

/// Builds the backend a type tag asks for. Only the synchronous in-memory
/// backend can be built here; the asynchronous kind has its own
/// constructor.
pub fn create_block_device(device_type: BlockDeviceType, name: String, size: u64) -> (r: Result<
    SimpleFakeDevice,
    DeviceError,
>)
    requires
        size / (BLOCK_SIZE as u64) <= usize::MAX,
    ensures
        device_type is AsyncSimpleFakeDevice ==> r == Err::<SimpleFakeDevice, DeviceError>(
            DeviceError::UnsupportedDeviceType,
        ),
        device_type is SimpleFakeDevice && size % (BLOCK_SIZE as u64) != 0 ==> r == Err::<
            SimpleFakeDevice,
            DeviceError,
        >(DeviceError::UnalignedSize),
        device_type is SimpleFakeDevice && size % (BLOCK_SIZE as u64) == 0 ==> (r matches Ok(d)
            && d.inv() && d.info_view() == (DeviceInfoView {
            device_type: BlockDeviceType::SimpleFakeDevice,
            name: name@,
            device_size: size,
            num_blocks: (size / (BLOCK_SIZE as u64)) as u64,
        }) && d.data_view().len() == size / (BLOCK_SIZE as u64) && forall|i: int|
            0 <= i < d.data_view().len()
                ==> crate::block_device_common::data_type::is_unmap_block(
                #[trigger] d.data_view()[i],
            )),
{
    match device_type {
        BlockDeviceType::SimpleFakeDevice => SimpleFakeDevice::new(name, size),
        BlockDeviceType::AsyncSimpleFakeDevice => Err(DeviceError::UnsupportedDeviceType),
    }
}

} // verus!
