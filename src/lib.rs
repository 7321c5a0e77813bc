//! Decision logic of a dynamic-DNS notifier: admission of connections, the
//! per-connection session protocol, the persisted IP record and the
//! propagation of a new IP to a DNS provider.

pub mod admission;
pub mod config;
pub mod json;
pub mod laws;
pub mod netcup;
pub mod post_update;
pub mod session;
pub mod store;
pub mod text;
