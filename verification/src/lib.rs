//! Decision core of a multi-device audio capture pipeline.
//!
//! The library holds the verified logic: device-list construction,
//! device-id parsing, the mapping from a hardware configuration to a
//! WAV file header, the non-blocking sample-writer bridge, the stop
//! coordinator's selection/merge policy, persistence fallback and
//! cleanup. The unverified shell around it performs the hardware and
//! file work and feeds the outcomes back in as plain values.

pub mod bridge;
pub mod device;
pub mod error;
pub mod fsmodel;
pub mod format;
pub mod persist;
pub mod policy;
pub mod session;
