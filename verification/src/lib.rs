//! The core of an egress HTTP gateway: which upstream a request may reach,
//! what is sent there, what is relayed back, and what is measured on the way.

pub mod border;
pub mod clock;
pub mod config;
pub mod context;
pub mod handlers;
pub mod instruments;
pub mod locator;
pub mod methods;
pub mod metrics;
pub mod middleware;
pub mod pipeline;
pub mod text;
