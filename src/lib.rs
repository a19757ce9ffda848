//! Request interceptors shared by HTTP services: caller identity resolution
//! and per-route request metrics, with the small layers that decorate them.

pub mod body_limit;
pub mod cors;
pub mod credentials;
pub mod identity;
pub mod labels;
pub mod log;
pub mod registry;
pub mod route_metrics;
pub mod slots;
