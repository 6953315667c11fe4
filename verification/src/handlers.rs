//! What the gateway does with a request that may pass: the forwarder, and
//! the reply of the metrics endpoint.

pub mod metrics;
pub mod proxy;
