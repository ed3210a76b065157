//! A small HTTPS application server's decision logic: the process configuration,
//! the loading of TLS credentials from PEM data, and the route handlers' replies.

pub mod config;
pub mod routes;
pub mod tls;
