//! Configuration read for one named database pool.
//!
//! A pool is configured under its database's name in the application's
//! configuration. Only the connection `url` is required; the remaining
//! parameters tune the underlying driver's pool and are optional, with
//! driver-chosen defaults. Drivers that do not support a minimum pool size
//! ignore `min_connections`.

use vstd::prelude::*;

verus! {

/// The configuration of a single database pool: where to connect and the
/// bounds and timeouts handed to the driver.
#[derive(Clone, Debug, PartialEq, Eq)]
pub struct Config {
    /// The connection URL of the database.
    pub url: String,
    /// The smallest number of connections the pool keeps open, where the
    /// driver supports one.
    pub min_connections: Option<u32>,
    /// The largest number of connections the pool opens.
    pub max_connections: usize,
    /// Seconds to wait when establishing a connection.
    pub connect_timeout: u64,
    /// Seconds an unused connection may sit idle before it is closed, where
    /// the driver supports closing idle connections.
    pub idle_timeout: Option<u64>,
}

} // verus!
