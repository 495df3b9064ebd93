//! Supervision logic for one cloud-hypervisor microVM: launch parameters,
//! device registry, process identities, stop decisions, vcpu thread
//! discovery and exit notices.

pub mod error;
pub mod pids;
pub mod stop;
pub mod params;
pub mod config;
pub mod device;
pub mod vcpu;
pub mod exit;
pub mod vm;
