//! Real-time throughput monitoring for RDMA/InfiniBand and Ethernet ports.
//!
//! The core is a per-port sampling engine: it reads raw byte counters at a
//! millisecond cadence, converts counter deltas into rates, performs
//! peak-hold aggregation over coarser commit windows, and publishes points
//! into a bounded FIFO history that a slow reader snapshots for display.

pub mod app;
pub mod data;
pub mod fast_io;
pub mod monitor;
pub mod ui;

pub use data::PortInfo;
pub use data::PortType;
