//! Everything that speaks to the guest rather than to the hypervisor.

pub mod artifacts;
pub mod cargo_json;
pub mod handover;
pub mod job;
pub mod ssh;
pub mod toolchain;
