//! An embeddable telemetry client: a bounded store of encoded events, the
//! interval scheduler that decides when a batch is due, and the bounded-retry
//! driver that delivers it.

pub mod clock;
pub mod config;
pub mod controller;
pub mod events;
pub mod gzip;
pub mod metrics_worker;
pub mod sysinfo;
pub mod text;
pub mod transmitter;
