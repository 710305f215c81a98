use ministore::block_device::simple_fake_device::SimpleFakeDevice;
use ministore::block_device::{create_block_device, BlockDevice};
use ministore::block_device_common::data_type::{unmap_block, DataBlock, BLOCK_SIZE};
use ministore::async_block_device::async_simple_fake_device::AsyncSimpleFakeDevice;
use ministore::block_device_common::BlockDeviceType;
use ministore::error::DeviceError;

#[test]
fn create_block_device_with_unaligned_size_should_fail() {
    let device = create_block_device(
        BlockDeviceType::SimpleFakeDevice,
        "block_device_should_provide_correct_device_info".to_string(),
        1000000,
    );

    assert!(device.is_err() == true);
}

#[test]
fn create_block_device_refuses_the_async_kind() {
    let device = create_block_device(
        BlockDeviceType::AsyncSimpleFakeDevice,
        "async_goes_elsewhere".to_string(),
        BLOCK_SIZE as u64 * 8,
    );

    assert_eq!(device.unwrap_err(), DeviceError::UnsupportedDeviceType);
}

#[test]
fn block_device_should_provide_correct_device_info() {
    let device_name = "block_device_should_provide_correct_device_info".to_string();
    let device = create_block_device(
        BlockDeviceType::SimpleFakeDevice,
        device_name.clone(),
        BLOCK_SIZE as u64 * 1000,
    )
    .expect("Failed to create a device");

    let info = device.info();
    assert_eq!(info.name(), &device_name);
    assert_eq!(info.device_size(), BLOCK_SIZE as u64 * 1000);
    assert_eq!(info.num_blocks(), 1000);
    assert_eq!(info.device_type(), BlockDeviceType::SimpleFakeDevice);
}

#[test]
fn write_and_read_should_success() {
    let device_name = "write_and_read_should_success".to_string();
    let mut device = create_block_device(
        BlockDeviceType::SimpleFakeDevice,
        device_name.clone(),
        BLOCK_SIZE as u64 * 1024,
    )
    .expect("Failed to create fake device");

    let lba = 10;
    let num_blocks = 5;
    let mut buffers = Vec::new();
    for num in 0..num_blocks {
        let block_buffer = DataBlock([num as u8; BLOCK_SIZE]);
        buffers.push(block_buffer);
    }
    assert_eq!(
        device.write(lba, num_blocks, buffers.clone().to_vec()).is_ok(),
        true
    );

    let read_result = device.read(lba, num_blocks);
    assert_eq!(read_result.is_ok(), true);
    assert_eq!(read_result.unwrap(), buffers);
}

#[test]
fn write_with_invalid_lba_range_should_fail() {
    let device_name = "write_with_invalid_lba_range_should_fail".to_string();
    let mut device = create_block_device(
        BlockDeviceType::SimpleFakeDevice,
        device_name.clone(),
        BLOCK_SIZE as u64 * 1024,
    )
    .expect("Failed to create fake device");

    let buffer = Vec::new();
    assert_eq!(device.write(0, 2000, buffer.clone()).is_err(), true);
    assert_eq!(device.write(0, 0, buffer.clone()).is_err(), true);
}

#[test]
fn write_should_fail_when_not_enough_buffer_is_provided() {
    let device_name = "write_should_fail_when_not_enough_buffer_is_provided".to_string();
    let mut device = create_block_device(
        BlockDeviceType::SimpleFakeDevice,
        device_name.clone(),
        BLOCK_SIZE as u64 * 1024,
    )
    .expect("Failed to create fake device");

    let mut buffer = Vec::new();
    for offset in 0..5 {
        buffer.push(DataBlock([offset as u8; BLOCK_SIZE]));
    }
    assert_eq!(device.write(0, 10, buffer.clone()).is_err(), true);
}

#[test]
fn write_error_kinds_match_their_causes() {
    let mut device = SimpleFakeDevice::new("error_kinds".to_string(), BLOCK_SIZE as u64 * 4)
        .unwrap();

    assert_eq!(
        device.write(0, 0, Vec::new()).unwrap_err(),
        DeviceError::InvalidRange
    );
    assert_eq!(
        device.write(3, 2, Vec::new()).unwrap_err(),
        DeviceError::InvalidRange
    );
    assert_eq!(
        device.write(0, 2, vec![DataBlock([1; BLOCK_SIZE])]).unwrap_err(),
        DeviceError::InsufficientBuffer
    );
    assert_eq!(
        device.read(0, 0).unwrap_err(),
        DeviceError::InvalidRange
    );
    assert_eq!(
        device.read(2, 3).unwrap_err(),
        DeviceError::InvalidRange
    );
}

#[test]
fn read_with_invalid_lba_range_should_fail() {
    let device_name = "read_with_invalid_lba_range_should_fail".to_string();
    let mut device = create_block_device(
        BlockDeviceType::SimpleFakeDevice,
        device_name.clone(),
        BLOCK_SIZE as u64 * 1024,
    )
    .expect("Failed to create fake device");

    assert_eq!(device.read(0, 2000).is_err(), true);
    assert_eq!(device.read(0, 0).is_err(), true);
}

#[test]
fn reading_unwritten_lbas_should_return_unmap_data() {
    let device_name = "reading_unwritten_lbas_should_return_unmap_data".to_string();
    let mut device = create_block_device(
        BlockDeviceType::SimpleFakeDevice,
        device_name.clone(),
        BLOCK_SIZE as u64 * 1024,
    )
    .expect("Failed to create fake device");

    let read_data = device.read(0, 1).expect("Failed to read data");
    assert_eq!(read_data.len(), 1);
    assert_eq!(*read_data.get(0).unwrap(), unmap_block());
}

#[test]
fn unwritten_lbas_beside_a_write_still_read_unmapped() {
    let mut device = SimpleFakeDevice::new("beside".to_string(), BLOCK_SIZE as u64 * 8).unwrap();
    device
        .write(3, 2, vec![DataBlock([7; BLOCK_SIZE]), DataBlock([8; BLOCK_SIZE])])
        .unwrap();

    let low = device.read(0, 3).unwrap();
    let high = device.read(5, 3).unwrap();
    for block in low.iter().chain(high.iter()) {
        assert_eq!(*block, unmap_block());
    }
    let written = device.read(3, 2).unwrap();
    assert_eq!(written[0], DataBlock([7; BLOCK_SIZE]));
    assert_eq!(written[1], DataBlock([8; BLOCK_SIZE]));
}

#[test]
fn flush_and_load_should_success() {
    let device_name = "flush_and_load_should_success".to_string();

    // Write data and flush all
    let snapshot = {
        let mut device = create_block_device(
            BlockDeviceType::SimpleFakeDevice,
            device_name.clone(),
            BLOCK_SIZE as u64 * 1024,
        )
        .expect("Failed to create block device");

        device
            .write(
                0,
                3,
                vec![
                    DataBlock([0xA; BLOCK_SIZE]),
                    DataBlock([0xB; BLOCK_SIZE]),
                    DataBlock([0xC; BLOCK_SIZE]),
                ],
            )
            .expect("Failed to write data");

        device.flush().expect("Failed to flush data")
    };

    // Load data and verify
    {
        let mut device = create_block_device(
            BlockDeviceType::SimpleFakeDevice,
            device_name.clone(),
            BLOCK_SIZE as u64 * 1024,
        )
        .expect("Failed to create block device");

        device.load(&snapshot).expect("Failed to load data");

        let read_data = device.read(0, 3).expect("Failed to read data");
        assert_eq!(
            read_data,
            vec![
                DataBlock([0xA; BLOCK_SIZE]),
                DataBlock([0xB; BLOCK_SIZE]),
                DataBlock([0xC; BLOCK_SIZE])
            ]
        );
    }
}

#[test]
fn device_should_be_able_to_provide_device_info_after_load() {
    let device_name = "device_should_be_able_to_provide_device_info_after_load".to_string();

    let snapshot = {
        let device = create_block_device(
            BlockDeviceType::SimpleFakeDevice,
            device_name.clone(),
            BLOCK_SIZE as u64 * 1024,
        )
        .expect("Failed to create block device");

        device.flush().expect("Failed to flush data")
    };

    {
        let mut device = create_block_device(
            BlockDeviceType::SimpleFakeDevice,
            device_name.clone(),
            0,
        )
        .expect("Failed to load a device");
        device.load(&snapshot).expect("Failed to load data");

        assert_eq!(device.info().name(), &device_name);
        assert_eq!(device.info().device_size(), BLOCK_SIZE as u64 * 1024);
    }
}

#[test]
fn load_rejects_a_snapshot_of_the_other_backend_kind() {
    let async_device = AsyncSimpleFakeDevice::new(
        BlockDeviceType::AsyncSimpleFakeDevice,
        "other_kind".to_string(),
        BLOCK_SIZE as u64 * 2,
    )
    .unwrap();
    let snapshot = async_device.flush().unwrap();

    let mut device = SimpleFakeDevice::new("other_kind".to_string(), 0).unwrap();
    assert_eq!(device.load(&snapshot).unwrap_err(), DeviceError::TypeMismatch);
}

#[test]
fn load_rejects_corrupt_snapshots() {
    let mut device = SimpleFakeDevice::new("corrupt".to_string(), 0).unwrap();

    assert_eq!(
        device.load(&Vec::new()).unwrap_err(),
        DeviceError::CorruptState
    );
    assert_eq!(
        device.load(&vec![0u8; 10]).unwrap_err(),
        DeviceError::CorruptState
    );

    let good = SimpleFakeDevice::new("ok".to_string(), BLOCK_SIZE as u64)
        .unwrap()
        .flush()
        .unwrap();
    let mut truncated = good.clone();
    truncated.pop();
    assert_eq!(
        device.load(&truncated).unwrap_err(),
        DeviceError::CorruptState
    );

    let mut bad_tag = good;
    bad_tag[0] = 9;
    assert_eq!(
        device.load(&bad_tag).unwrap_err(),
        DeviceError::CorruptState
    );
}
