//! Core engine of a mock industrial-IoT telemetry server: the sensor
//! catalog, the bounded access-log recorder, the per-endpoint statistics
//! aggregator, the broadcast fan-out hub, and the per-connection socket
//! session state machine. The surrounding HTTP layer stays outside; it
//! hands this library plain values and takes plain values back.

pub mod catalog;
pub mod clock;
pub mod frames;
pub mod hub;
pub mod recorder;
pub mod sensor_meta;
pub mod sensors;
pub mod stats;
pub mod strutil;
pub mod session;
