//! Estimation of the offset between a local clock and network reference time
//! via NTP client round-trip exchanges.
//!
//! The verified core covers the epoch conversion between NTP's 1900-based
//! fixed-point timestamps and standard 1970-based timestamps, the 48-byte
//! wire codec, the per-exchange delay/offset calculation, and the weighted
//! aggregation of samples from several servers. The sockets, the system
//! clock and the command line live outside the library and hand it plain
//! values.

pub mod aggregate;
pub mod errors;
pub mod message;
pub mod roundtrip;
pub mod timestamp;
