//! The configuration of the server and the rules it has to meet.

use vstd::prelude::*;

verus! {

/// The largest time to live of a cache entry that is used where none is
/// configured, in seconds.
pub const MAX_CACHE_TTL_SEC: u32 = 2_462_400;

/// The host that is bound where none is configured.
pub const DEF_BIND_HOST: &'static str = "127.0.0.1";

/// The port that is bound where none is configured.
pub const DEF_BIND_PORT: u16 = 5396;

/// The capacity of the cache that is used where none is configured.
pub const DEF_CACHE_CAP: u64 = 1000;

/// The smallest port that may be bound.
pub const MIN_BIND_PORT: u16 = 1000;

/// The configuration of the server.
#[derive(Debug, Clone)]
pub struct Config {
    pub bind_host: String,
    pub bind_port: u16,
    pub db_path: String,
    pub max_cache_ttl: u32,
    pub cache_cap: u64,
    pub num_workers: Option<usize>,
}

/// The rule that a configuration breaks.
#[derive(Clone, Copy, Debug, PartialEq, Eq, Structural)]
pub enum ConfigError {
    /// The host to bind is empty.
    EmptyBindHost,
    /// The port to bind is below [`MIN_BIND_PORT`].
    BindPortOutOfRange,
    /// The path of the store is empty or leads nowhere.
    MissingDatabase,
    /// Cache entries would live for less than a second.
    ZeroCacheTtl,
    /// The cache would hold no entry.
    ZeroCacheCapacity,
    /// There would be no worker.
    ZeroWorkers,
}

impl ConfigError {
    /// The rule in words.
    pub fn message(&self) -> (text: &'static str)
        ensures
            text@ == match *self {
                ConfigError::EmptyBindHost => "Bind host cannot be empty"@,
                ConfigError::BindPortOutOfRange => "Bind port must be between 1000 and 65535"@,
                ConfigError::MissingDatabase => "Database path doesn't exist"@,
                ConfigError::ZeroCacheTtl => "Max cache TTL should be higher than 0"@,
                ConfigError::ZeroCacheCapacity => "Cache capacity should be higher than 0"@,
                ConfigError::ZeroWorkers => "Number of workers should be higher than 0"@,
            },
    {
        match self {
            ConfigError::EmptyBindHost => "Bind host cannot be empty",
            ConfigError::BindPortOutOfRange => "Bind port must be between 1000 and 65535",
            ConfigError::MissingDatabase => "Database path doesn't exist",
            ConfigError::ZeroCacheTtl => "Max cache TTL should be higher than 0",
            ConfigError::ZeroCacheCapacity => "Cache capacity should be higher than 0",
            ConfigError::ZeroWorkers => "Number of workers should be higher than 0",
        }
    }
}

impl Config {
    /// The first rule that the configuration breaks, in the order in which
    /// the rules are listed, given whether something exists at the path of
    /// the store.
    pub open spec fn spec_first_violation(self, db_path_exists: bool) -> Option<ConfigError> {
        if self.bind_host@.len() == 0 {
            Some(ConfigError::EmptyBindHost)
        } else if self.bind_port < MIN_BIND_PORT {
            Some(ConfigError::BindPortOutOfRange)
        } else if self.db_path@.len() == 0 || !db_path_exists {
            Some(ConfigError::MissingDatabase)
        } else if self.max_cache_ttl < 1 {
            Some(ConfigError::ZeroCacheTtl)
        } else if self.cache_cap < 1 {
            Some(ConfigError::ZeroCacheCapacity)
        } else if self.num_workers matches Some(n) && n < 1 {
            Some(ConfigError::ZeroWorkers)
        } else {
            None
        }
    }

    /// Whether the configuration meets every rule.
    pub open spec fn spec_valid(self, db_path_exists: bool) -> bool {
        &&& self.bind_host@.len() > 0
        &&& MIN_BIND_PORT <= self.bind_port
        &&& self.db_path@.len() > 0
        &&& db_path_exists
        &&& self.max_cache_ttl >= 1
        &&& self.cache_cap >= 1
        &&& (self.num_workers matches Some(n) ==> n >= 1)
    }

    /// Holds the configuration to the rules, given whether something exists
    /// at the path of the store, and names the first rule it breaks.
    pub fn validate(&self, db_path_exists: bool) -> (verdict: Result<(), ConfigError>)
        ensures
            verdict is Ok <==> self.spec_valid(db_path_exists),
            match verdict {
                Ok(_) => self.spec_first_violation(db_path_exists) is None,
                Err(rule) => self.spec_first_violation(db_path_exists) == Some(rule),
            },
    {
        if self.bind_host.as_str().is_empty() {
            return Err(ConfigError::EmptyBindHost);
        }
        if self.bind_port < MIN_BIND_PORT {
            return Err(ConfigError::BindPortOutOfRange);
        }
        if self.db_path.as_str().is_empty() || !db_path_exists {
            return Err(ConfigError::MissingDatabase);
        }
        if self.max_cache_ttl < 1 {
            return Err(ConfigError::ZeroCacheTtl);
        }
        if self.cache_cap < 1 {
            return Err(ConfigError::ZeroCacheCapacity);
        }
        match self.num_workers {
            Some(n) => {
                if n < 1 {
                    return Err(ConfigError::ZeroWorkers);
                }
            },
            None => {},
        }
        Ok(())
    }

    /// The host and port to bind.
    pub fn bind_addr(&self) -> (addr: (&str, u16))
        ensures
            addr.0@ == self.bind_host@,
            addr.1 == self.bind_port,
    {
        (self.bind_host.as_str(), self.bind_port)
    }
}

/// The host that is bound where none is configured.
pub fn def_bind_host() -> (host: String)
    ensures
        host@ == DEF_BIND_HOST@,
{
    DEF_BIND_HOST.to_owned()
}

/// The port that is bound where none is configured.
pub fn def_bind_port() -> (port: u16)
    ensures
        port == DEF_BIND_PORT,
{
    DEF_BIND_PORT
}

/// The largest time to live of a cache entry where none is configured.
pub fn def_max_cache_ttl() -> (ttl: u32)
    ensures
        ttl == MAX_CACHE_TTL_SEC,
{
    MAX_CACHE_TTL_SEC
}

/// The capacity of the cache where none is configured.
pub fn def_cache_cap() -> (capacity: u64)
    ensures
        capacity == DEF_CACHE_CAP,
{
    DEF_CACHE_CAP
}

} // verus!
