//! Bridge between a Pinecil soldering iron reachable over Bluetooth Low Energy
//! and a telemetry consumer: the protocol identifiers, the telemetry codec, the
//! polling session and the device lifecycle controller.

pub mod bulk;
pub mod clock;
pub mod config;
pub mod identity;
pub mod manager;
pub mod mqtt;
pub mod protocol;
pub mod session;
pub mod transformer;
