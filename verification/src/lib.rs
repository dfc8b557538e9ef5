//! A small event-driven network server toolkit: configuration, connection
//! endpoints, per-connection buffer state, TLS peer validation and the
//! bookkeeping that the event loops run on.

pub mod config;
pub mod endpoint;
pub mod tables;
pub mod conn;
pub mod server;
pub mod net_events;
pub mod events;
pub mod network_server;
