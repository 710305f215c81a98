//! The device manager: a name-keyed registry of live devices. It creates,
//! deletes and lists devices under the configured policy, and routes
//! write and read calls to the named device. Names are unique; a create
//! for an existing name fails before anything is touched.
//!
//! Each operation's outcome is stated once, as a predicate over the
//! registry before and after the call; the service layer's contracts
//! reuse the same predicates.

use vstd::prelude::*;
use crate::block_device::simple_fake_device::SimpleFakeDevice;
use crate::block_device::{create_block_device, BlockDevice};
use crate::block_device_common::data_type::{
    is_unmap_block, spec_read, spec_valid_range, spec_write, DataBlock, BLOCK_SIZE,
};
use crate::block_device_common::device_info::DeviceInfoView;
use crate::block_device_common::{spec_device_type_of_str, str_to_block_device_type,
    BlockDeviceType};
use crate::config::DeviceConfig;
use crate::error::DeviceError;

verus! {

/// The registry of live devices, with the policy it was configured with.
pub struct DeviceManager {
    devices: Vec<(String, SimpleFakeDevice)>,
    config: DeviceConfig,
}

/// The policy never changes across an operation.
pub open spec fn registry_frame(pre: DeviceManager, post: DeviceManager) -> bool {
    &&& post.spec_use_fake() == pre.spec_use_fake()
    &&& post.spec_device_type_str() == pre.spec_device_type_str()
}

/// What `create_fake_device` does: each failure leaves the registry as
/// it was; success appends a fresh, fully unmapped device under the new
/// name and touches nothing else.
pub open spec fn create_post(
    pre: DeviceManager,
    post: DeviceManager,
    name: Seq<char>,
    size: u64,
    r: Result<(), DeviceError>,
) -> bool {
    &&& registry_frame(pre, post)
    &&& !pre.spec_use_fake() ==> (r == Err::<(), DeviceError>(DeviceError::FeatureDisabled)
        && post.spec_devices() == pre.spec_devices())
    &&& pre.spec_use_fake() && pre.contains_name(name) ==> (r == Err::<(), DeviceError>(
        DeviceError::AlreadyExists,
    ) && post.spec_devices() == pre.spec_devices())
    &&& pre.spec_use_fake() && !pre.contains_name(name) ==> ({
        let kind = spec_device_type_of_str(pre.spec_device_type_str());
        &&& kind is None ==> (r == Err::<(), DeviceError>(DeviceError::UnknownDeviceType)
            && post.spec_devices() == pre.spec_devices())
        &&& kind == Some(BlockDeviceType::AsyncSimpleFakeDevice) ==> (r == Err::<
            (),
            DeviceError,
        >(DeviceError::UnsupportedDeviceType) && post.spec_devices() == pre.spec_devices())
        &&& kind == Some(BlockDeviceType::SimpleFakeDevice) && size % (BLOCK_SIZE as u64) != 0
            ==> (r == Err::<(), DeviceError>(DeviceError::UnalignedSize) && post.spec_devices()
            == pre.spec_devices())
        &&& kind == Some(BlockDeviceType::SimpleFakeDevice) && size % (BLOCK_SIZE as u64) == 0
            ==> (r == Ok::<(), DeviceError>(()) && post.spec_devices().len()
            == pre.spec_devices().len() + 1 && (forall|i: int|
            0 <= i < pre.spec_devices().len() ==> post.spec_devices()[i]
                == pre.spec_devices()[i]) && ({
            let entry = post.spec_devices()[pre.spec_devices().len() as int];
            &&& entry.0@ == name
            &&& entry.1.info_view() == (DeviceInfoView {
                device_type: BlockDeviceType::SimpleFakeDevice,
                name,
                device_size: size,
                num_blocks: (size / (BLOCK_SIZE as u64)) as u64,
            })
            &&& entry.1.data_view().len() == size / (BLOCK_SIZE as u64)
            &&& forall|i: int|
                0 <= i < entry.1.data_view().len() ==> is_unmap_block(
                    #[trigger] entry.1.data_view()[i],
                )
        }))
    })
}

/// What `insert_device` does: each failure leaves the registry as it
/// was; success appends exactly the given device under the new name.
pub open spec fn insert_post(
    pre: DeviceManager,
    post: DeviceManager,
    name: Seq<char>,
    device: SimpleFakeDevice,
    r: Result<(), DeviceError>,
) -> bool {
    &&& registry_frame(pre, post)
    &&& !pre.spec_use_fake() ==> (r == Err::<(), DeviceError>(DeviceError::FeatureDisabled)
        && post.spec_devices() == pre.spec_devices())
    &&& pre.spec_use_fake() && pre.contains_name(name) ==> (r == Err::<(), DeviceError>(
        DeviceError::AlreadyExists,
    ) && post.spec_devices() == pre.spec_devices())
    &&& pre.spec_use_fake() && !pre.contains_name(name) ==> (r == Ok::<(), DeviceError>(())
        && post.spec_devices().len() == pre.spec_devices().len() + 1 && (forall|i: int|
        0 <= i < pre.spec_devices().len() ==> post.spec_devices()[i] == pre.spec_devices()[i])
        && post.spec_devices()[pre.spec_devices().len() as int].0@ == name
        && post.spec_devices()[pre.spec_devices().len() as int].1 == device)
}

/// What `delete_fake_device` does: each failure leaves the registry as
/// it was; success removes exactly the named device.
pub open spec fn delete_post(
    pre: DeviceManager,
    post: DeviceManager,
    name: Seq<char>,
    r: Result<(), DeviceError>,
) -> bool {
    &&& registry_frame(pre, post)
    &&& !pre.spec_use_fake() ==> (r == Err::<(), DeviceError>(DeviceError::FeatureDisabled)
        && post.spec_devices() == pre.spec_devices())
    &&& pre.spec_use_fake() && !pre.contains_name(name) ==> (r == Err::<(), DeviceError>(
        DeviceError::NotFound,
    ) && post.spec_devices() == pre.spec_devices())
    &&& pre.spec_use_fake() && pre.contains_name(name) ==> (r == Ok::<(), DeviceError>(())
        && post.spec_devices() == pre.spec_devices().remove(pre.spec_index_of(name)))
}

/// What `list_fake_devices` returns: one name and size per registered
/// device, in registry order.
pub open spec fn list_post(m: DeviceManager, r: Result<Vec<(String, u64)>, DeviceError>) -> bool {
    &&& !m.spec_use_fake() ==> r == Err::<Vec<(String, u64)>, DeviceError>(
        DeviceError::FeatureDisabled,
    )
    &&& m.spec_use_fake() ==> (r matches Ok(l) && l@.len() == m.spec_devices().len() && forall|
        i: int,
    |
        0 <= i < l@.len() ==> (#[trigger] l@[i]).0@ == m.spec_devices()[i].0@ && l@[i].1
            == m.spec_devices()[i].1.info_view().device_size)
}

/// What `write` does: an unknown name changes nothing; otherwise the
/// named device enforces its own range and buffer preconditions, its
/// blocks change exactly as a device write says, and every other device
/// is untouched.
pub open spec fn write_post(
    pre: DeviceManager,
    post: DeviceManager,
    name: Seq<char>,
    lba: u64,
    num_blocks: u64,
    blocks: Seq<DataBlock>,
    r: Result<(), DeviceError>,
) -> bool {
    &&& registry_frame(pre, post)
    &&& !pre.contains_name(name) ==> (r == Err::<(), DeviceError>(DeviceError::NotFound)
        && post.spec_devices() == pre.spec_devices())
    &&& pre.contains_name(name) ==> ({
        let i = pre.spec_index_of(name);
        let dev_old = pre.spec_devices()[i].1;
        let dev_new = post.spec_devices()[i].1;
        &&& post.spec_devices().len() == pre.spec_devices().len()
        &&& forall|j: int|
            0 <= j < pre.spec_devices().len() && j != i ==> post.spec_devices()[j]
                == pre.spec_devices()[j]
        &&& post.spec_devices()[i].0 == pre.spec_devices()[i].0
        &&& dev_new.info_view() == dev_old.info_view()
        &&& !spec_valid_range(lba, num_blocks, dev_old.info_view().num_blocks) ==> (r == Err::<
            (),
            DeviceError,
        >(DeviceError::InvalidRange) && dev_new.data_view() == dev_old.data_view())
        &&& spec_valid_range(lba, num_blocks, dev_old.info_view().num_blocks) && blocks.len()
            < num_blocks ==> (r == Err::<(), DeviceError>(DeviceError::InsufficientBuffer)
            && dev_new.data_view() == dev_old.data_view())
        &&& spec_valid_range(lba, num_blocks, dev_old.info_view().num_blocks) && blocks.len()
            >= num_blocks ==> (r == Ok::<(), DeviceError>(()) && dev_new.data_view()
            == spec_write(dev_old.data_view(), lba as int, num_blocks as int, blocks))
    })
}

/// What `read` does: an unknown name fails, a bad range fails, and
/// otherwise exactly the addressed blocks come back, in LBA order; no
/// device state changes either way.
pub open spec fn read_post(
    pre: DeviceManager,
    post: DeviceManager,
    name: Seq<char>,
    lba: u64,
    num_blocks: u64,
    r: Result<Vec<DataBlock>, DeviceError>,
) -> bool {
    &&& registry_frame(pre, post)
    &&& !pre.contains_name(name) ==> (r == Err::<Vec<DataBlock>, DeviceError>(
        DeviceError::NotFound,
    ) && post.spec_devices() == pre.spec_devices())
    &&& pre.contains_name(name) ==> ({
        let i = pre.spec_index_of(name);
        let dev_old = pre.spec_devices()[i].1;
        let dev_new = post.spec_devices()[i].1;
        &&& post.spec_devices().len() == pre.spec_devices().len()
        &&& forall|j: int|
            0 <= j < pre.spec_devices().len() && j != i ==> post.spec_devices()[j]
                == pre.spec_devices()[j]
        &&& post.spec_devices()[i].0 == pre.spec_devices()[i].0
        &&& dev_new.info_view() == dev_old.info_view()
        &&& dev_new.data_view() == dev_old.data_view()
        &&& !spec_valid_range(lba, num_blocks, dev_old.info_view().num_blocks) ==> r == Err::<
            Vec<DataBlock>,
            DeviceError,
        >(DeviceError::InvalidRange)
        &&& spec_valid_range(lba, num_blocks, dev_old.info_view().num_blocks) ==> (r matches Ok(
            read_blocks,
        ) && read_blocks@ == spec_read(dev_old.data_view(), lba as int, num_blocks as int))
    })
}

/// Creating twice under one name: after a create succeeds, a second
/// create under the same name fails with `AlreadyExists` and leaves the
/// registry exactly as the first create left it - holding one device
/// more than before, under that name.
pub proof fn lemma_create_twice_same_name(
    m0: DeviceManager,
    m1: DeviceManager,
    m2: DeviceManager,
    name: Seq<char>,
    size1: u64,
    size2: u64,
    r2: Result<(), DeviceError>,
)
    requires
        create_post(m0, m1, name, size1, Ok(())),
        create_post(m1, m2, name, size2, r2),
    ensures
        r2 == Err::<(), DeviceError>(DeviceError::AlreadyExists),
        m2.spec_devices() == m1.spec_devices(),
        m2.spec_devices().len() == m0.spec_devices().len() + 1,
        m2.contains_name(name),
{
    assert(m0.spec_use_fake());
    assert(!m0.contains_name(name));
    let ghost last = m0.spec_devices().len() as int;
    assert(m1.spec_devices()[last].0@ == name);
    assert(m1.contains_name(name));
}

impl DeviceManager {
    /// The registry as a sequence of name/device pairs.
    pub closed spec fn spec_devices(&self) -> Seq<(String, SimpleFakeDevice)> {
        self.devices@
    }

    /// Whether fake devices are enabled.
    pub closed spec fn spec_use_fake(&self) -> bool {
        self.config.use_fake
    }

    /// The configured backend type string.
    pub closed spec fn spec_device_type_str(&self) -> Seq<char> {
        self.config.fake_device_type@
    }

    /// Whether the registry holds a device under this name.
    pub open spec fn contains_name(&self, name: Seq<char>) -> bool {
        exists|i: int| 0 <= i < self.spec_devices().len() && self.spec_devices()[i].0@ == name
    }

    /// The registry index of the device under this name.
    pub open spec fn spec_index_of(&self, name: Seq<char>) -> int {
        choose|i: int| 0 <= i < self.spec_devices().len() && self.spec_devices()[i].0@ == name
    }

    /// The registry invariant: names are unique and every device is
    /// internally consistent.
    pub closed spec fn inv(&self) -> bool {
        &&& forall|i: int, j: int|
            0 <= i < j < self.devices@.len() ==> self.devices@[i].0@ != self.devices@[j].0@
        &&& forall|i: int| 0 <= i < self.devices@.len() ==> (#[trigger] self.devices@[i]).1.inv()
    }

    /// Builds a manager with an empty registry under the given policy.
    /// Loading pre-existing device snapshots is the caller's concern:
    /// decode each and hand it to `insert_device`.
    pub fn new(config: &DeviceConfig) -> (r: Result<Self, DeviceError>)
        ensures
            r matches Ok(m) && m.inv() && m.spec_devices().len() == 0 && m.spec_use_fake()
                == config.use_fake && m.spec_device_type_str() == config.fake_device_type@,
    {
        Ok(DeviceManager { devices: Vec::new(), config: config.duplicate() })
    }

    /// The registry index holding this name, if any.
    fn find_index(&self, device_name: &String) -> (r: Option<usize>)
        ensures
            r matches Some(i) ==> i < self.spec_devices().len() && self.spec_devices()[
                i as int
            ].0@ == device_name@,
            r is None ==> !self.contains_name(device_name@),
    {
        let mut i: usize = 0;
        let n = self.devices.len();
        while i < n
            invariant
                i <= n,
                n == self.spec_devices().len(),
                forall|k: int| 0 <= k < i ==> self.spec_devices()[k].0@ != device_name@,
            decreases n - i,
        {
            if self.devices[i].0 == *device_name {
                return Some(i);
            }
            i = i + 1;
        }
        None
    }

    /// Creates a fresh device under a new name. Fails with
    /// `FeatureDisabled` when fake devices are off and with
    /// `AlreadyExists` when the name is taken, both before anything is
    /// allocated; a bad configured type or an unaligned size fail next.
    /// On success the new device is appended, all blocks unmapped, and
    /// every other device is untouched.
    pub fn create_fake_device(&mut self, device_name: &String, device_size: u64) -> (r: Result<
        (),
        DeviceError,
    >)
        requires
            old(self).inv(),
            device_size / (BLOCK_SIZE as u64) <= usize::MAX,
        ensures
            final(self).inv(),
            create_post(*old(self), *final(self), device_name@, device_size, r),
    {
        if !self.config.use_fake {
            return Err(DeviceError::FeatureDisabled);
        }
        if self.find_index(device_name).is_some() {
            return Err(DeviceError::AlreadyExists);
        }
        let device_type = match str_to_block_device_type(self.config.fake_device_type.as_str()) {
            Ok(t) => t,
            Err(e) => {
                return Err(e);
            },
        };
        let device = match create_block_device(device_type, device_name.clone(), device_size) {
            Ok(d) => d,
            Err(e) => {
                return Err(e);
            },
        };
        self.devices.push((device_name.clone(), device));
        Ok(())
    }

    /// Hands a reconstructed device to the registry under a new name,
    /// as when pre-existing snapshots are loaded at startup. Fails with
    /// `FeatureDisabled` when fake devices are off and with
    /// `AlreadyExists` when the name is taken; nothing else is touched.
    pub fn insert_device(&mut self, device_name: &String, device: SimpleFakeDevice) -> (r: Result<
        (),
        DeviceError,
    >)
        requires
            old(self).inv(),
            device.inv(),
        ensures
            final(self).inv(),
            insert_post(*old(self), *final(self), device_name@, device, r),
    {
        if !self.config.use_fake {
            return Err(DeviceError::FeatureDisabled);
        }
        if self.find_index(device_name).is_some() {
            return Err(DeviceError::AlreadyExists);
        }
        self.devices.push((device_name.clone(), device));
        Ok(())
    }

    /// Removes the named device from the registry. Fails with
    /// `FeatureDisabled` when fake devices are off and with `NotFound`
    /// when the name is absent. Removing the backing file afterwards is
    /// the caller's concern and best-effort.
    pub fn delete_fake_device(&mut self, device_name: &String) -> (r: Result<(), DeviceError>)
        requires
            old(self).inv(),
        ensures
            final(self).inv(),
            delete_post(*old(self), *final(self), device_name@, r),
    {
        if !self.config.use_fake {
            return Err(DeviceError::FeatureDisabled);
        }
        let idx = match self.find_index(device_name) {
            Some(i) => i,
            None => {
                return Err(DeviceError::NotFound);
            },
        };
        proof {
            let ghost j = self.spec_index_of(device_name@);
            assert(0 <= j < self.spec_devices().len() && self.spec_devices()[j].0@
                == device_name@);
            assert(j == idx);
        }
        self.devices.remove(idx);
        Ok(())
    }

    /// A snapshot of the registry: each device's name and size, in
    /// registry order. Fails with `FeatureDisabled` when fake devices
    /// are off.
    pub fn list_fake_devices(&self) -> (r: Result<Vec<(String, u64)>, DeviceError>)
        requires
            self.inv(),
        ensures
            list_post(*self, r),
    {
        if !self.config.use_fake {
            return Err(DeviceError::FeatureDisabled);
        }
        let mut out: Vec<(String, u64)> = Vec::new();
        let mut i: usize = 0;
        let n = self.devices.len();
        while i < n
            invariant
                i <= n,
                n == self.spec_devices().len(),
                self.inv(),
                out@.len() == i,
                forall|k: int|
                    0 <= k < i ==> (#[trigger] out@[k]).0@ == self.spec_devices()[k].0@
                        && out@[k].1 == self.spec_devices()[k].1.info_view().device_size,
            decreases n - i,
        {
            let name = self.devices[i].0.clone();
            let size = self.devices[i].1.info().device_size();
            out.push((name, size));
            i = i + 1;
        }
        Ok(out)
    }

    /// The named device's snapshot record, for the caller to persist;
    /// the registry itself never changes. Fails with `NotFound` when the
    /// name is absent.
    pub fn flush_device(&self, device_name: &String) -> (r: Result<Vec<u8>, DeviceError>)
        requires
            self.inv(),
        ensures
            !self.contains_name(device_name@) ==> r == Err::<Vec<u8>, DeviceError>(
                DeviceError::NotFound,
            ),
            self.contains_name(device_name@) ==> (r matches Ok(b) && b@
                == crate::snapshot::spec_encode(
                self.spec_devices()[self.spec_index_of(device_name@)].1.info_view(),
                crate::snapshot::spec_block_views(
                    self.spec_devices()[self.spec_index_of(device_name@)].1.data_view(),
                ),
            )),
    {
        let idx = match self.find_index(device_name) {
            Some(i) => i,
            None => {
                return Err(DeviceError::NotFound);
            },
        };
        proof {
            let ghost j = self.spec_index_of(device_name@);
            assert(0 <= j < self.spec_devices().len() && self.spec_devices()[j].0@
                == device_name@);
            assert(j == idx);
        }
        self.devices[idx].1.flush()
    }

    /// Routes a write to the named device, which enforces the range and
    /// buffer preconditions itself. Fails with `NotFound` when the name
    /// is absent; every other device is untouched.
    pub fn write(
        &mut self,
        device_name: &String,
        lba: u64,
        num_blocks: u64,
        blocks: Vec<DataBlock>,
    ) -> (r: Result<(), DeviceError>)
        requires
            old(self).inv(),
        ensures
            final(self).inv(),
            write_post(*old(self), *final(self), device_name@, lba, num_blocks, blocks@, r),
    {
        let idx = match self.find_index(device_name) {
            Some(i) => i,
            None => {
                return Err(DeviceError::NotFound);
            },
        };
        proof {
            let ghost j = self.spec_index_of(device_name@);
            assert(0 <= j < self.spec_devices().len() && self.spec_devices()[j].0@
                == device_name@);
            assert(j == idx);
        }
        let entry = vstd::std_specs::vec::vec_index_mut(&mut self.devices, idx);
        entry.1.write(lba, num_blocks, blocks)
    }

    /// Routes a read to the named device, which enforces the range
    /// precondition itself. Fails with `NotFound` when the name is
    /// absent; no device state changes.
    pub fn read(&mut self, device_name: &String, lba: u64, num_blocks: u64) -> (r: Result<
        Vec<DataBlock>,
        DeviceError,
    >)
        requires
            old(self).inv(),
        ensures
            final(self).inv(),
            read_post(*old(self), *final(self), device_name@, lba, num_blocks, r),
    {
        let idx = match self.find_index(device_name) {
            Some(i) => i,
            None => {
                return Err(DeviceError::NotFound);
            },
        };
        proof {
            let ghost j = self.spec_index_of(device_name@);
            assert(0 <= j < self.spec_devices().len() && self.spec_devices()[j].0@
                == device_name@);
            assert(j == idx);
        }
        let entry = vstd::std_specs::vec::vec_index_mut(&mut self.devices, idx);
        entry.1.read(lba, num_blocks)
    }
}

} // verus!
