//! The service core behind the network endpoint: it owns the device
//! manager, validates write payloads before any device is touched, and
//! turns each manager outcome into a plain reply value. The transport -
//! sockets, request decoding, locking across concurrent callers - stays
//! with the caller, which hands plain values in and out.

use vstd::prelude::*;
use vstd::string::StringExecFns;
use crate::block_device::BlockDevice;
use crate::block_device_common::data_type::{DataBlock, BLOCK_SIZE};
use crate::device_manager::{create_post, delete_post, read_post, write_post, DeviceManager};
use crate::error::DeviceError;
use crate::wire::{data_block_into_proto_data, is_valid_proto_data, proto_data_into_data_block,
    spec_valid_wire_data};

verus! {

/// One registered device, as the list reply carries it.
pub struct FakeDevice {
    pub name: String,
    pub size: u64,
}

/// The reply to a status probe.
pub struct StatusResponse {
    pub ready: bool,
}

/// The reply to a create request.
pub struct CreateFakeDeviceResponse {
    pub success: bool,
    pub reason: Option<String>,
}

/// The reply to a delete request.
pub struct DeleteFakeDeviceResponse {
    pub success: bool,
    pub reason: Option<String>,
}

/// The reply to a list request.
pub struct ListFakeDevicesResponse {
    pub success: bool,
    pub device_list: Vec<FakeDevice>,
    pub reason: Option<String>,
}

/// The reply to a write request.
pub struct WriteResponse {
    pub success: bool,
    pub reason: Option<String>,
}

/// The reply to a read request.
pub struct ReadResponse {
    pub success: bool,
    pub data: Option<Vec<Vec<u8>>>,
    pub reason: Option<String>,
}

/// How a unit-valued manager outcome is reported: success carries no
/// reason, failure carries the error's message.
pub open spec fn reply_reports(r: Result<(), DeviceError>, success: bool, reason: Option<
    String,
>) -> bool {
    match r {
        Ok(()) => success && reason is None,
        Err(e) => !success && (reason matches Some(m) && m@ == e.spec_message()),
    }
}

/// The service core: the device manager and the reply logic around it.
pub struct GrpcServer {
    device_manager: DeviceManager,
}

impl GrpcServer {
    /// The manager this service routes to.
    pub closed spec fn spec_manager(&self) -> DeviceManager {
        self.device_manager
    }

    /// The service invariant: the manager's own invariant.
    pub open spec fn inv(&self) -> bool {
        self.spec_manager().inv()
    }

    /// Wraps a manager for serving.
    pub fn new(device_manager: DeviceManager) -> (r: Self)
        ensures
            r.spec_manager() == device_manager,
    {
        Self { device_manager }
    }

    /// The service is ready as soon as it exists.
    pub fn status(&self) -> (r: StatusResponse)
        ensures
            r.ready,
    {
        StatusResponse { ready: true }
    }

    /// Creates a fresh device, reporting the manager's outcome.
    pub fn create_fake_device(&mut self, name: &String, size: u64) -> (r:
        CreateFakeDeviceResponse)
        requires
            old(self).inv(),
            size / (BLOCK_SIZE as u64) <= usize::MAX,
        ensures
            final(self).inv(),
            exists|res: Result<(), DeviceError>|
                #[trigger] create_post(
                    old(self).spec_manager(),
                    final(self).spec_manager(),
                    name@,
                    size,
                    res,
                ) && reply_reports(res, r.success, r.reason),
    {
        let result = self.device_manager.create_fake_device(name, size);
        let ghost gres = result;
        let resp = match result {
            Ok(()) => CreateFakeDeviceResponse { success: true, reason: None },
            Err(e) => CreateFakeDeviceResponse { success: false, reason: Some(e.message()) },
        };
        proof {
            assert(create_post(old(self).spec_manager(), self.spec_manager(), name@, size, gres));
            assert(reply_reports(gres, resp.success, resp.reason));
        }
        resp
    }

    /// Deletes a device, reporting the manager's outcome.
    pub fn delete_fake_device(&mut self, name: &String) -> (r: DeleteFakeDeviceResponse)
        requires
            old(self).inv(),
        ensures
            final(self).inv(),
            exists|res: Result<(), DeviceError>|
                #[trigger] delete_post(
                    old(self).spec_manager(),
                    final(self).spec_manager(),
                    name@,
                    res,
                ) && reply_reports(res, r.success, r.reason),
    {
        let result = self.device_manager.delete_fake_device(name);
        let ghost gres = result;
        let resp = match result {
            Ok(()) => DeleteFakeDeviceResponse { success: true, reason: None },
            Err(e) => DeleteFakeDeviceResponse { success: false, reason: Some(e.message()) },
        };
        proof {
            assert(delete_post(old(self).spec_manager(), self.spec_manager(), name@, gres));
            assert(reply_reports(gres, resp.success, resp.reason));
        }
        resp
    }

    /// Lists the registered devices, one reply entry per device in
    /// registry order; the registry itself never changes.
    pub fn list_fake_devices(&self) -> (r: ListFakeDevicesResponse)
        requires
            self.inv(),
        ensures
            !self.spec_manager().spec_use_fake() ==> (!r.success && r.device_list@.len() == 0
                && (r.reason matches Some(m) && m@
                == DeviceError::FeatureDisabled.spec_message())),
            self.spec_manager().spec_use_fake() ==> (r.success && r.reason is None
                && r.device_list@.len() == self.spec_manager().spec_devices().len() && forall|
                i: int,
            |
                0 <= i < r.device_list@.len() ==> (#[trigger] r.device_list@[i]).name@
                    == self.spec_manager().spec_devices()[i].0@ && r.device_list@[i].size
                    == self.spec_manager().spec_devices()[i].1.info_view().device_size),
    {
        let listed = match self.device_manager.list_fake_devices() {
            Ok(l) => l,
            Err(e) => {
                return ListFakeDevicesResponse {
                    success: false,
                    device_list: Vec::new(),
                    reason: Some(e.message()),
                };
            },
        };
        let mut device_list: Vec<FakeDevice> = Vec::new();
        let mut i: usize = 0;
        let n = listed.len();
        while i < n
            invariant
                i <= n,
                n == listed@.len(),
                device_list@.len() == i,
                forall|k: int|
                    0 <= k < i ==> (#[trigger] device_list@[k]).name@ == listed@[k].0@
                        && device_list@[k].size == listed@[k].1,
            decreases n - i,
        {
            let name = listed[i].0.clone();
            let size = listed[i].1;
            device_list.push(FakeDevice { name, size });
            i = i + 1;
        }
        ListFakeDevicesResponse { success: true, device_list, reason: None }
    }

    /// The named device's snapshot record, for the caller to persist
    /// after a create; the registry never changes.
    pub fn flush_device(&self, name: &String) -> (r: Result<Vec<u8>, DeviceError>)
        requires
            self.inv(),
        ensures
            !self.spec_manager().contains_name(name@) ==> r == Err::<Vec<u8>, DeviceError>(
                DeviceError::NotFound,
            ),
            self.spec_manager().contains_name(name@) ==> (r matches Ok(b) && b@
                == crate::snapshot::spec_encode(
                self.spec_manager().spec_devices()[self.spec_manager().spec_index_of(
                    name@,
                )].1.info_view(),
                crate::snapshot::spec_block_views(
                    self.spec_manager().spec_devices()[self.spec_manager().spec_index_of(
                        name@,
                    )].1.data_view(),
                ),
            )),
    {
        self.device_manager.flush_device(name)
    }

    /// Writes a payload to the named device. A missing payload, or one
    /// whose byte strings are not whole blocks, is rejected before the
    /// manager is touched; a byte string of any length other than one
    /// block is rejected next. Otherwise the payload's blocks go to the
    /// manager and its outcome is reported.
    #[verifier::loop_isolation(false)]
    pub fn write(
        &mut self,
        name: &String,
        lba: u64,
        num_blocks: u64,
        data: Option<Vec<Vec<u8>>>,
    ) -> (r: WriteResponse)
        requires
            old(self).inv(),
        ensures
            final(self).inv(),
            !spec_valid_wire_data(data) ==> (!r.success && (r.reason matches Some(m) && m@
                == "no data provided"@) && final(self).spec_manager() == old(
                self,
            ).spec_manager()),
            spec_valid_wire_data(data) && (exists|i: int|
                0 <= i < data.unwrap()@.len() && (#[trigger] data.unwrap()@[i])@.len()
                    != BLOCK_SIZE) ==> (!r.success && (r.reason matches Some(m) && m@
                == "block data must be exactly one block"@) && final(self).spec_manager() == old(
                self,
            ).spec_manager()),
            spec_valid_wire_data(data) && (forall|i: int|
                0 <= i < data.unwrap()@.len() ==> (#[trigger] data.unwrap()@[i])@.len()
                    == BLOCK_SIZE) ==> (exists|blocks: Seq<DataBlock>, res: Result<
                (),
                DeviceError,
            >|
                blocks.len() == data.unwrap()@.len() && (forall|i: int|
                    0 <= i < blocks.len() ==> (#[trigger] blocks[i])@ == data.unwrap()@[i]@)
                    && #[trigger] write_post(
                    old(self).spec_manager(),
                    final(self).spec_manager(),
                    name@,
                    lba,
                    num_blocks,
                    blocks,
                    res,
                ) && reply_reports(res, r.success, r.reason)),
    {
        if !is_valid_proto_data(&data) {
            return WriteResponse {
                success: false,
                reason: Some(String::from_str("no data provided")),
            };
        }
        let payload = match data {
            Some(d) => d,
            None => {
                return WriteResponse {
                    success: false,
                    reason: Some(String::from_str("no data provided")),
                };
            },
        };
        let mut i: usize = 0;
        let n = payload.len();
        while i < n
            invariant
                i <= n,
                n == payload@.len(),
                forall|k: int| 0 <= k < i ==> (#[trigger] payload@[k])@.len() == BLOCK_SIZE,
            decreases n - i,
        {
            if payload[i].len() != BLOCK_SIZE {
                return WriteResponse {
                    success: false,
                    reason: Some(String::from_str("block data must be exactly one block")),
                };
            }
            i = i + 1;
        }
        let blocks = proto_data_into_data_block(payload);
        let ghost gblocks = blocks@;
        let result = self.device_manager.write(name, lba, num_blocks, blocks);
        let ghost gres = result;
        let resp = match result {
            Ok(()) => WriteResponse { success: true, reason: None },
            Err(e) => WriteResponse { success: false, reason: Some(e.message()) },
        };
        proof {
            assert(write_post(
                old(self).spec_manager(),
                self.spec_manager(),
                name@,
                lba,
                num_blocks,
                gblocks,
                gres,
            ));
            assert(reply_reports(gres, resp.success, resp.reason));
        }
        resp
    }

    /// Reads from the named device and replies with the blocks in wire
    /// form; the manager's outcome is reported and no device state
    /// changes.
    pub fn read(&mut self, name: &String, lba: u64, num_blocks: u64) -> (r: ReadResponse)
        requires
            old(self).inv(),
        ensures
            final(self).inv(),
            exists|res: Result<Vec<DataBlock>, DeviceError>|
                #[trigger] read_post(
                    old(self).spec_manager(),
                    final(self).spec_manager(),
                    name@,
                    lba,
                    num_blocks,
                    res,
                ) && match res {
                    Ok(blocks) => r.success && r.reason is None && (r.data matches Some(w)
                        && w@.len() == blocks@.len() && forall|i: int|
                        0 <= i < w@.len() ==> (#[trigger] w@[i])@ == blocks@[i]@),
                    Err(e) => !r.success && r.data is None && (r.reason matches Some(m) && m@
                        == e.spec_message()),
                },
    {
        let result = self.device_manager.read(name, lba, num_blocks);
        let ghost gres = result;
        proof {
            assert(read_post(
                old(self).spec_manager(),
                self.spec_manager(),
                name@,
                lba,
                num_blocks,
                gres,
            ));
        }
        match result {
            Ok(blocks) => {
                let wire = data_block_into_proto_data(blocks);
                ReadResponse { success: true, data: Some(wire), reason: None }
            },
            Err(e) => ReadResponse { success: false, data: None, reason: Some(e.message()) },
        }
    }
}

} // verus!
