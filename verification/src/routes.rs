//! The replies of the route handlers.

pub mod api;
pub mod metrics;
pub mod websocket;
