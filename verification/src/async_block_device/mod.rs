//! The backend whose I/O runs through an asynchronous runtime. Its block
//! logic is synchronous and identical to the simple backend's; only the
//! file traffic around it is asynchronous, and that stays with the caller.

pub mod async_simple_fake_device;
