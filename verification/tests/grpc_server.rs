use ministore::block_device_common::data_type::BLOCK_SIZE;
use ministore::config::DeviceConfig;
use ministore::device_manager::DeviceManager;
use ministore::grpc_server::GrpcServer;
use ministore::utils::humansize_to_integer;

fn test_device_manager() -> DeviceManager {
    let config = DeviceConfig {
        use_fake: true,
        fake_device_location: "fakes".to_string(),
        fake_device_type: "SimpleFake".to_string(),
    };
    DeviceManager::new(&config).expect("Failed to create device manager")
}

#[test]
fn server_should_response_with_ready_when_started() {
    let grpc_server = GrpcServer::new(test_device_manager());

    let response = grpc_server.status();
    assert_eq!(response.ready, true);
}

#[test]
fn server_should_be_able_to_create_and_delete_fake_device() {
    let mut server = GrpcServer::new(test_device_manager());

    // Create device and verify it using list devices
    let device_name = "server_can_create_and_delete_fake_device".to_string();
    let response = server.create_fake_device(
        &device_name,
        humansize_to_integer(&"1M".to_string()).unwrap(),
    );
    assert_eq!(response.success, true, "{:?}", response.reason);

    let response = server.list_fake_devices();
    assert_eq!(response.success, true, "{:?}", response.reason);
    assert_eq!(response.device_list.len(), 1);
    assert_eq!(response.device_list.get(0).unwrap().name, device_name);
    assert_eq!(
        response.device_list.get(0).unwrap().size,
        humansize_to_integer(&"1M".to_string()).unwrap()
    );

    // Delete device and verify it using list devices
    let response = server.delete_fake_device(&device_name);
    assert_eq!(response.success, true, "{:?}", response.reason);

    let response = server.list_fake_devices();
    assert_eq!(response.success, true, "{:?}", response.reason);
    assert_eq!(response.device_list.len(), 0);
}

#[test]
fn server_should_be_able_to_read_write_fake_device() {
    let mut server = GrpcServer::new(test_device_manager());

    // Create device for test
    let device_name = "server_should_be_able_to_read_write_fake_device".to_string();
    let response = server.create_fake_device(
        &device_name,
        humansize_to_integer(&"1M".to_string()).unwrap(),
    );
    assert_eq!(response.success, true, "{:?}", response.reason);

    // Write data to the device
    let write_data = vec![
        vec![0xA as u8; BLOCK_SIZE],
        vec![0xB as u8; BLOCK_SIZE],
        vec![0xC as u8; BLOCK_SIZE],
        vec![0xD as u8; BLOCK_SIZE],
    ];
    let response = server.write(&device_name, 10, 4, Some(write_data.clone()));
    assert_eq!(response.success, true, "{:?}", response.reason);

    // Read data from the device
    let response = server.read(&device_name, 10, 4);
    assert_eq!(response.success, true, "{:?}", response.reason);

    // Verify read data
    assert_eq!(response.data.unwrap(), write_data);

    // Delete device for wrapup
    let response = server.delete_fake_device(&device_name);
    assert_eq!(response.success, true, "{:?}", response.reason);
}

#[test]
fn server_should_reply_with_error_when_invalid_data_provided_for_write() {
    let mut server = GrpcServer::new(test_device_manager());

    // Create device for test
    let device_name =
        "server_should_reply_with_error_when_invalid_data_provided_for_write".to_string();
    let response = server.create_fake_device(
        &device_name,
        humansize_to_integer(&"1M".to_string()).unwrap(),
    );
    assert_eq!(response.success, true, "{:?}", response.reason);

    // test 1. write request without data
    let response = server.write(&device_name, 0, 1, None);
    assert_eq!(response.success, false);

    // test 2. write request with too-small data (smaller than the block size)
    let invalid_write_data = vec![vec![0xA as u8; 1024]];
    let response = server.write(&device_name, 0, 1, Some(invalid_write_data));
    assert_eq!(response.success, false);

    // Delete device for wrapup
    let response = server.delete_fake_device(&device_name);
    assert_eq!(response.success, true, "{:?}", response.reason);
}

#[test]
fn server_rejects_multi_block_byte_strings() {
    let mut server = GrpcServer::new(test_device_manager());
    let device_name = "multi_block_chunks".to_string();
    assert!(server.create_fake_device(&device_name, 4096 * 8).success);

    // A whole number of blocks in one byte string passes the payload
    // check of the original wire format, but is not one block per entry.
    let response = server.write(&device_name, 0, 2, Some(vec![vec![1u8; 2 * BLOCK_SIZE]]));
    assert_eq!(response.success, false);

    // The device is untouched: the target range still reads unmapped.
    let response = server.read(&device_name, 0, 2);
    assert!(response.success);
    for chunk in response.data.unwrap() {
        assert!(chunk.iter().all(|b| *b == 0xF));
    }
}

#[test]
fn server_reports_reasons_for_failed_requests() {
    let mut server = GrpcServer::new(test_device_manager());
    let device_name = "reasons".to_string();
    assert!(server.create_fake_device(&device_name, 4096 * 4).success);

    let response = server.write(&device_name, 0, 0, Some(vec![vec![1u8; BLOCK_SIZE]]));
    assert_eq!(response.success, false);
    assert_eq!(response.reason.unwrap(), "invalid lba range");

    let response = server.read(&"nobody".to_string(), 0, 1);
    assert_eq!(response.success, false);
    assert_eq!(response.reason.unwrap(), "no such device");

    let response = server.create_fake_device(&device_name, 4096);
    assert_eq!(response.success, false);
    assert_eq!(response.reason.unwrap(), "device already exists");
}
