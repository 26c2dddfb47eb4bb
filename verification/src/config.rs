//! The settings that the service starts with, and what stops it from
//! starting.

use vstd::prelude::*;

verus! {

/// The address on which the service listens.
pub const LISTEN_HOST: &'static str = "127.0.0.1";

/// The port on which the service listens.
pub const LISTEN_PORT: u16 = 3000;

/// The most connections that the pool holds to the data store at a time.
pub const MAX_CONNECTIONS: u32 = 5;

/// The environment variable that holds the connection string of the data
/// store.
pub const DATABASE_URL_VAR: &'static str = "DATABASE_URL";

/// The log filter where the environment sets none.
pub const DEFAULT_LOG_FILTER: &'static str = "info";

/// What stops the service from starting. Each is fatal: the process ends
/// with the message, and nothing is tried again.
#[derive(Clone, Copy, Debug, PartialEq, Eq, Structural)]
pub enum StartupError {
    /// The environment file is not there.
    EnvFileMissing,
    /// The connection string is not set.
    DatabaseUrlMissing,
    /// The connection pool could not be set up.
    PoolUnavailable,
}

impl StartupError {
    /// The message that the process ends with.
    pub open spec fn spec_message(self) -> Seq<char> {
        match self {
            StartupError::EnvFileMissing => ".env file not found"@,
            StartupError::DatabaseUrlMissing => "DATABASE_URL must be set"@,
            StartupError::PoolUnavailable => "Failed to create pool"@,
        }
    }

    /// The message that the process ends with.
    pub fn message(self) -> (message: &'static str)
        ensures
            message@ == self.spec_message(),
    {
        match self {
            StartupError::EnvFileMissing => ".env file not found",
            StartupError::DatabaseUrlMissing => "DATABASE_URL must be set",
            StartupError::PoolUnavailable => "Failed to create pool",
        }
    }
}

} // verus!
