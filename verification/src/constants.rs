use vstd::prelude::*;

verus! {

/// Configuration key: base URL of the server an agent reports to.
pub const CONFIG_SERVER: &'static str = "server";

/// Configuration key: display name of an agent.
pub const CONFIG_NAME: &'static str = "name";

/// Configuration key: identifier of an agent.
pub const CONFIG_ID: &'static str = "id";

/// Configuration key: secret of an agent.
pub const CONFIG_TOKEN: &'static str = "token";

/// Configuration key: certificate file of the server.
pub const CONFIG_SERVER_CERT: &'static str = "cert";

/// Configuration key: private key file of the server.
pub const CONFIG_SERVER_KEY: &'static str = "key";

/// Configuration key: address the server listens on.
pub const CONFIG_SERVER_LISTEN: &'static str = "listen";

/// Configuration key: connection parameters of the database.
pub const CONFIG_PG_PARAMS: &'static str = "pg_params";

/// Configuration key: directory that log files are written to.
pub const CONFIG_LOG_DIR: &'static str = "log_dir";

/// Configuration key: log level.
pub const CONFIG_LOG_LEVEL: &'static str = "log_level";

/// Configuration key: whether log lines are also written to the terminal.
pub const CONFIG_LOG_STDOUT: &'static str = "log_stdout";

/// Configuration key: whether the server speaks HTTPS.
pub const CONFIG_SERVER_HTTPS: &'static str = "https";

/// Stored code of a regular-expression search.
pub const SEARCH_REGEX: i32 = 1;

/// Stored code of a substring search.
pub const SEARCH_CONTAINS: i32 = 2;

/// Stored code of a wildcard search.
pub const SEARCH_WILDCARD: i32 = 3;

/// Seconds an agent sleeps between two polls of the server.
pub const POLL_INTERVAL_SECS: u64 = 60;

/// Length of a generated agent identifier and of a generated agent secret.
pub const CREDENTIAL_LEN: usize = 32;

/// Most database sessions that the server holds open at a time.
pub const POOL_MAX_SIZE: usize = 16;

/// Minutes between two scheduled runs in a database that was just created.
pub const DEFAULT_SCHEDULE_MINUTES: i32 = 30;

/// Version of the database layout that this library works on.
pub const DB_VERSION: i32 = 1;

} // verus!
