//! The stages that wrap the forwarder: the access filter and the latency
//! measurement.

pub mod latency;
pub mod proxy_filter;
