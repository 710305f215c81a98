use ministore::block_device_common::{str_to_block_device_type, BlockDeviceType};
use ministore::error::DeviceError;

// This test should be updated whenever you add new type
#[test]
fn all_block_device_type_should_be_converted_from_str() {
    assert_eq!(
        str_to_block_device_type("SimpleFake"),
        Ok(BlockDeviceType::SimpleFakeDevice)
    );
    assert_eq!(
        str_to_block_device_type("AsyncSimpleFake"),
        Ok(BlockDeviceType::AsyncSimpleFakeDevice)
    );
}

#[test]
fn all_block_device_type_should_tell_if_it_is_sync_or_async() {
    assert_eq!(BlockDeviceType::SimpleFakeDevice.is_sync(), true);
    assert_eq!(BlockDeviceType::SimpleFakeDevice.is_async(), false);

    // Add test here when you add new type
}

#[test]
fn unknown_device_type_string_is_rejected() {
    assert_eq!(
        str_to_block_device_type("SpinningRust"),
        Err(DeviceError::UnknownDeviceType)
    );
    assert_eq!(
        str_to_block_device_type(""),
        Err(DeviceError::UnknownDeviceType)
    );
}
