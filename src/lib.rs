//! Process audio capture on top of a hardware-abstraction audio API: status
//! codes, property queries, tap and aggregate-device descriptions, and the
//! lifecycle of an IO callback registration.
//!
//! Every call into the host API itself is made by the caller; this crate
//! decides what to ask for and what the answers mean.

pub mod aggregate_device;
pub mod cache;
pub mod command;
pub mod device;
pub mod error;
pub mod foundation;
pub mod process;
pub mod property;
pub mod record;
pub mod rserror;
pub mod status;
pub mod stream;
pub mod tap;

