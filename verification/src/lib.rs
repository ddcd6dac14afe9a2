//! Verified core of a DNS stub forwarder: configuration defaults,
//! upstream endpoint descriptions, the connection pool's bookkeeping,
//! the watchdog's decisions and DNS-over-TCP length framing.

pub mod config;
pub mod connection;
pub mod connection_manager;
pub mod connection_pool;
pub mod connection_watchdog;
pub mod query;
