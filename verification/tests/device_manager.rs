use ministore::block_device_common::data_type::{unmap_block, DataBlock, BLOCK_SIZE};
use ministore::config::DeviceConfig;
use ministore::device_manager::DeviceManager;
use ministore::error::DeviceError;
use ministore::utils::humansize_to_integer;

fn test_device_config(dirname: &str) -> DeviceConfig {
    DeviceConfig {
        use_fake: true,
        fake_device_location: dirname.to_string(),
        fake_device_type: "SimpleFake".to_string(),
    }
}

#[test]
fn device_manager_can_create_and_delete_device() {
    let testname = "device_manager_can_create_and_delete_device";
    let config = test_device_config(&testname);
    let mut device_manager = DeviceManager::new(&config).unwrap();

    // type = SimpleFakeDevice
    // name = "device_manager_can_create_and_delete_device"
    // size = 1MB
    let device_name = testname.to_string();

    device_manager
        .create_fake_device(&device_name, humansize_to_integer(&"1M".to_string()).unwrap())
        .expect("Failed to create fake device");

    let devices = device_manager
        .list_fake_devices()
        .expect("Failed to get device list");
    assert_eq!(devices.len(), 1);
    assert_eq!(devices.get(0).unwrap().0, device_name);
    assert_eq!(
        devices.get(0).unwrap().1,
        humansize_to_integer(&"1M".to_string()).unwrap()
    );

    device_manager
        .delete_fake_device(&device_name)
        .expect("Failed to remove fake device");

    let devices = device_manager
        .list_fake_devices()
        .expect("Failed to get device list");
    assert_eq!(devices.len(), 0);
}

#[test]
fn device_manager_cannot_create_device_with_same_name_twice() {
    let testname = "device_manager_cannot_create_device_with_same_name_twice";
    let config = test_device_config(&testname);
    let mut device_manager =
        DeviceManager::new(&config).expect("Failed to create device manager");

    // type = SimpleFakeDevice
    // name = "device_manager_cannot_create_device_with_same_name_twice"
    // size = 1MB
    let device_name = testname.to_string();
    device_manager
        .create_fake_device(&device_name, humansize_to_integer(&"1M".to_string()).unwrap())
        .expect("Failed to create fake device");

    assert_eq!(
        device_manager
            .create_fake_device(&device_name, humansize_to_integer(&"1M".to_string()).unwrap())
            .is_ok(),
        false
    );

    // The registry still holds exactly the one device.
    let devices = device_manager.list_fake_devices().unwrap();
    assert_eq!(devices.len(), 1);
    assert_eq!(devices.get(0).unwrap().0, device_name);
}

#[test]
fn duplicate_create_reports_already_exists() {
    let config = test_device_config("duplicate_create");
    let mut device_manager = DeviceManager::new(&config).unwrap();
    let name = "twice".to_string();

    device_manager.create_fake_device(&name, 4096 * 4).unwrap();
    assert_eq!(
        device_manager.create_fake_device(&name, 4096 * 4).unwrap_err(),
        DeviceError::AlreadyExists
    );
}

#[test]
fn manager_refuses_everything_when_fake_devices_are_disabled() {
    let config = DeviceConfig {
        use_fake: false,
        fake_device_location: "nowhere".to_string(),
        fake_device_type: "SimpleFake".to_string(),
    };
    let mut device_manager = DeviceManager::new(&config).unwrap();
    let name = "off".to_string();

    assert_eq!(
        device_manager.create_fake_device(&name, 4096).unwrap_err(),
        DeviceError::FeatureDisabled
    );
    assert_eq!(
        device_manager.delete_fake_device(&name).unwrap_err(),
        DeviceError::FeatureDisabled
    );
    assert_eq!(
        device_manager.list_fake_devices().unwrap_err(),
        DeviceError::FeatureDisabled
    );
}

#[test]
fn manager_rejects_unknown_configured_type() {
    let config = DeviceConfig {
        use_fake: true,
        fake_device_location: ".".to_string(),
        fake_device_type: "NoSuchKind".to_string(),
    };
    let mut device_manager = DeviceManager::new(&config).unwrap();

    assert_eq!(
        device_manager
            .create_fake_device(&"x".to_string(), 4096)
            .unwrap_err(),
        DeviceError::UnknownDeviceType
    );
}

#[test]
fn manager_create_rejects_unaligned_sizes() {
    let config = test_device_config("unaligned");
    let mut device_manager = DeviceManager::new(&config).unwrap();

    assert_eq!(
        device_manager
            .create_fake_device(&"x".to_string(), 4097)
            .unwrap_err(),
        DeviceError::UnalignedSize
    );
}

#[test]
fn manager_io_on_unknown_device_reports_not_found() {
    let config = test_device_config("unknown_io");
    let mut device_manager = DeviceManager::new(&config).unwrap();

    assert_eq!(
        device_manager
            .write(&"ghost".to_string(), 0, 1, Vec::new())
            .unwrap_err(),
        DeviceError::NotFound
    );
    assert_eq!(
        device_manager.read(&"ghost".to_string(), 0, 1).unwrap_err(),
        DeviceError::NotFound
    );
    assert_eq!(
        device_manager.delete_fake_device(&"ghost".to_string()).unwrap_err(),
        DeviceError::NotFound
    );
}

#[test]
fn manager_routes_io_to_the_named_device() {
    let config = test_device_config("routing");
    let mut device_manager = DeviceManager::new(&config).unwrap();
    let first = "first".to_string();
    let second = "second".to_string();

    device_manager.create_fake_device(&first, 4096 * 8).unwrap();
    device_manager.create_fake_device(&second, 4096 * 8).unwrap();

    device_manager
        .write(&first, 1, 1, vec![DataBlock([0x42; BLOCK_SIZE])])
        .unwrap();

    let from_first = device_manager.read(&first, 1, 1).unwrap();
    assert_eq!(from_first[0], DataBlock([0x42; BLOCK_SIZE]));

    let from_second = device_manager.read(&second, 1, 1).unwrap();
    assert_eq!(from_second[0], unmap_block());
}
