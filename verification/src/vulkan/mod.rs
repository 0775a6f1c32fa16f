pub mod ash_bindings;
pub mod instance;
pub mod logical_devices;
pub mod physical_device;
pub mod queue;
pub mod queue_families;
pub mod search;
