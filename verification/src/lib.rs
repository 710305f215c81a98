//! A verified core for a fleet of emulated block devices.
//!
//! A device is a fixed array of 4096-byte blocks addressed by LBA; blocks
//! never written read back as the unmapped sentinel. The in-memory backends
//! persist themselves as a single binary snapshot, and a name-keyed manager
//! creates, deletes and routes I/O to the devices it owns. All file and
//! network traffic stays with the caller: this crate computes snapshots,
//! decodes them, and keeps the registry and LBA invariants.

pub mod async_block_device;
pub mod block_device;
pub mod block_device_common;
pub mod config;
pub mod device_manager;
pub mod error;
pub mod grpc_server;
pub mod run_mode;
pub mod snapshot;
pub mod utils;
pub mod wire;
