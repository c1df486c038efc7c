//! Detection and reporting of air-quality monitoring stations whose
//! published readings are missing pollutant measurements.
//!
//! The library holds the whole decision pipeline: classifying a field as
//! missing, filtering a fetched batch down to the problem stations,
//! resolving the alert timestamp, rendering the per-channel webhook
//! payloads, and interpreting dispatch responses. The surrounding binary
//! only performs the HTTP calls and file reads and hands plain values in
//! and out.

pub mod config;
pub mod dispatch;
pub mod json;
pub mod message;
pub mod reading;
pub mod text;
pub mod timestamp;
