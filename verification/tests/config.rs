use xocsp::config::{
    def_bind_host, def_bind_port, def_cache_cap, def_max_cache_ttl, Config, ConfigError,
};

fn valid() -> Config {
    Config {
        bind_host: def_bind_host(),
        bind_port: def_bind_port(),
        db_path: "/var/lib/crl/store.db".to_string(),
        max_cache_ttl: def_max_cache_ttl(),
        cache_cap: def_cache_cap(),
        num_workers: None,
    }
}

#[test]
fn defaults_have_their_values() {
    assert_eq!(def_bind_host(), "127.0.0.1");
    assert_eq!(def_bind_port(), 5396);
    assert_eq!(def_max_cache_ttl(), 2_462_400);
    assert_eq!(def_cache_cap(), 1000);
}

#[test]
fn valid_configuration_passes() {
    assert_eq!(valid().validate(true), Ok(()));
    let mut config = valid();
    config.num_workers = Some(4);
    config.bind_port = 1000;
    config.max_cache_ttl = 1;
    config.cache_cap = 1;
    assert_eq!(config.validate(true), Ok(()));
    config.bind_port = 65535;
    assert_eq!(config.validate(true), Ok(()));
}

#[test]
fn empty_host_is_refused() {
    let mut config = valid();
    config.bind_host = String::new();
    assert_eq!(config.validate(true), Err(ConfigError::EmptyBindHost));
}

#[test]
fn low_port_is_refused() {
    let mut config = valid();
    config.bind_port = 999;
    assert_eq!(config.validate(true), Err(ConfigError::BindPortOutOfRange));
    config.bind_port = 0;
    assert_eq!(config.validate(true), Err(ConfigError::BindPortOutOfRange));
}

#[test]
fn missing_database_is_refused() {
    assert_eq!(valid().validate(false), Err(ConfigError::MissingDatabase));
    let mut config = valid();
    config.db_path = String::new();
    assert_eq!(config.validate(true), Err(ConfigError::MissingDatabase));
}

#[test]
fn zero_ttl_is_refused() {
    let mut config = valid();
    config.max_cache_ttl = 0;
    assert_eq!(config.validate(true), Err(ConfigError::ZeroCacheTtl));
}

#[test]
fn zero_capacity_is_refused() {
    let mut config = valid();
    config.cache_cap = 0;
    assert_eq!(config.validate(true), Err(ConfigError::ZeroCacheCapacity));
}

#[test]
fn zero_workers_are_refused() {
    let mut config = valid();
    config.num_workers = Some(0);
    assert_eq!(config.validate(true), Err(ConfigError::ZeroWorkers));
}

#[test]
fn first_broken_rule_is_named() {
    let config = Config {
        bind_host: String::new(),
        bind_port: 1,
        db_path: String::new(),
        max_cache_ttl: 0,
        cache_cap: 0,
        num_workers: Some(0),
    };
    assert_eq!(config.validate(false), Err(ConfigError::EmptyBindHost));
    let config = Config { bind_host: "::1".to_string(), ..config };
    assert_eq!(config.validate(false), Err(ConfigError::BindPortOutOfRange));
    let config = Config { bind_port: 8080, ..config };
    assert_eq!(config.validate(false), Err(ConfigError::MissingDatabase));
    let config = Config { db_path: "store.db".to_string(), ..config };
    assert_eq!(config.validate(true), Err(ConfigError::ZeroCacheTtl));
    let config = Config { max_cache_ttl: 5, ..config };
    assert_eq!(config.validate(true), Err(ConfigError::ZeroCacheCapacity));
    let config = Config { cache_cap: 5, ..config };
    assert_eq!(config.validate(true), Err(ConfigError::ZeroWorkers));
    let config = Config { num_workers: Some(1), ..config };
    assert_eq!(config.validate(true), Ok(()));
}

#[test]
fn bind_addr_is_host_and_port() {
    let config = valid();
    assert_eq!(config.bind_addr(), ("127.0.0.1", 5396));
}

#[test]
fn rules_have_their_words() {
    assert_eq!(ConfigError::EmptyBindHost.message(), "Bind host cannot be empty");
    assert_eq!(
        ConfigError::BindPortOutOfRange.message(),
        "Bind port must be between 1000 and 65535"
    );
    assert_eq!(ConfigError::MissingDatabase.message(), "Database path doesn't exist");
    assert_eq!(ConfigError::ZeroCacheTtl.message(), "Max cache TTL should be higher than 0");
    assert_eq!(
        ConfigError::ZeroCacheCapacity.message(),
        "Cache capacity should be higher than 0"
    );
    assert_eq!(ConfigError::ZeroWorkers.message(), "Number of workers should be higher than 0");
}
