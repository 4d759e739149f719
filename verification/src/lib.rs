//! Decision logic of an eBPF traffic-control classifier for Ockam portals: which packets it
//! looks at, which headers it reads, and what it answers the kernel.
pub mod classify;
pub mod headers;
pub mod laws;
pub mod ports;
