use auth_lib::interfaces::config::ConfigLoader;
use auth_lib::model::config::{
    Config, ConfigError, ConfigSlot, DirectLoader, Duration, EnvLoader, RawConfig,
};

#[test]
fn config_direct_load() {
    let configuration = RawConfig::default()
        .db_host("localhost")
        .db_port(5432)
        .db_user("postgres")
        .db_password("super-secret-db-password")
        .db_name("auth_db")
        .db_max_pool_size(20)
        .db_connect_timeout_secs(10)
        .jwt_secret("my-very-long-jwt-signing-secret")
        .jwt_access_expiry_secs(900)
        .jwt_refresh_expiry_secs(604_800)
        .jwt_issuer("auth-lib-test")
        .server_host("0.0.0.0")
        .server_port(8080)
        .server_max_body_bytes(2_097_152);

    let mut slot = ConfigSlot::new();
    let cfg = Config::init_with(&mut slot, DirectLoader::new(configuration))
        .expect("Config::init_with failed");

    assert!(Config::is_initialised(&slot));

    println!("=== DatabaseConfig ===");
    println!("  host              : {}", cfg.database.host);
    println!("  port              : {}", cfg.database.port);
    println!("  user              : {}", cfg.database.user);
    println!("  password          : {}", cfg.database.password);
    println!("  name              : {}", cfg.database.name);
    println!("  max_pool_size     : {}", cfg.database.max_pool_size);
    println!("  connect_timeout   : {:?}", cfg.database.connect_timeout);
    println!("  connection_string : {}", cfg.database.connection_string());
    println!("  connection_url    : {}", cfg.database.connection_url());
    println!("=== JwtConfig ===");
    println!("  secret                : {}", cfg.jwt.secret);
    println!("  access_token_expiry   : {:?}", cfg.jwt.access_token_expiry);
    println!("  refresh_token_expiry  : {:?}", cfg.jwt.refresh_token_expiry);
    println!("  issuer                : {}", cfg.jwt.issuer);
    println!("  access_expiry_secs()  : {}", cfg.jwt.access_expiry_secs());
    println!("  refresh_expiry_secs() : {}", cfg.jwt.refresh_expiry_secs());
    println!("=== ServerConfig ===");
    println!("  host            : {}", cfg.server.host);
    println!("  port            : {}", cfg.server.port);
    println!("  max_body_bytes  : {}", cfg.server.max_body_bytes);
    println!("  bind_address()  : {}", cfg.server.bind_address());

    let global = Config::global(&slot);
    assert_eq!(global.database.host, "localhost");
    assert_eq!(global.jwt.issuer, "auth-lib-test");
    assert_eq!(global.server.bind_address(), "0.0.0.0:8080");
}

#[test]
fn derived_strings_of_a_full_config() {
    let mut slot = ConfigSlot::new();
    let raw = RawConfig::default()
        .db_host("db.internal")
        .db_port(6543)
        .db_user("svc")
        .db_password("pw")
        .db_name("accounts")
        .db_connect_timeout_secs(12)
        .jwt_secret("k");
    let cfg = Config::init_with(&mut slot, DirectLoader::new(raw)).unwrap();
    assert_eq!(
        cfg.database.connection_string(),
        "host=db.internal port=6543 user=svc password=pw dbname=accounts connect_timeout=12"
    );
    assert_eq!(cfg.database.connection_url(), "postgres://svc:pw@db.internal:6543/accounts");
}

#[test]
fn defaults_fill_every_optional_field() {
    let raw = RawConfig::default().db_host("h").db_user("u").db_password("p").jwt_secret("s");
    let (db, jwt, server) = raw.into_parts().unwrap();
    assert_eq!(db.port, 5432);
    assert_eq!(db.name, "auth");
    assert_eq!(db.max_pool_size, 10);
    assert_eq!(db.connect_timeout.as_secs(), 5);
    assert_eq!(jwt.access_expiry_secs(), 900);
    assert_eq!(jwt.refresh_expiry_secs(), 604_800);
    assert_eq!(jwt.issuer, "auth-lib");
    assert_eq!(server.host, "127.0.0.1");
    assert_eq!(server.port, 8080);
    assert_eq!(server.max_body_bytes, 1_048_576);
    assert_eq!(server.bind_address(), "127.0.0.1:8080");
}

fn missing_key(raw: RawConfig) -> String {
    match raw.into_parts() {
        Err(ConfigError::Missing(k)) => k,
        other => panic!("expected a missing field, got {:?}", other.map(|_| ())),
    }
}

#[test]
fn first_missing_required_field_is_reported() {
    assert_eq!(missing_key(RawConfig::default()), "db_host");
    assert_eq!(missing_key(RawConfig::default().db_host("h")), "db_user");
    assert_eq!(missing_key(RawConfig::default().db_host("h").db_user("u")), "db_password");
    assert_eq!(
        missing_key(RawConfig::default().db_host("h").db_user("u").db_password("p")),
        "jwt_secret"
    );
}

#[test]
fn failed_initialisation_leaves_the_slot_empty() {
    let mut slot = ConfigSlot::new();
    assert!(!Config::is_initialised(&slot));
    let err = Config::init_with(&mut slot, DirectLoader::new(RawConfig::default().db_host("h")));
    assert!(matches!(err, Err(ConfigError::Missing(ref k)) if k == "db_user"));
    assert!(!Config::is_initialised(&slot));
}

#[test]
fn builder_sets_only_its_field() {
    let raw = RawConfig::default().server_port(9000);
    assert_eq!(raw.server_port, Some(9000));
    assert!(raw.db_host.is_none() && raw.db_port.is_none() && raw.server_host.is_none());
    let raw = raw.jwt_issuer("me");
    assert_eq!(raw.jwt_issuer.as_deref(), Some("me"));
    assert_eq!(raw.server_port, Some(9000));
}

#[test]
fn direct_loader_hands_back_its_snapshot() {
    let loader = DirectLoader::new(RawConfig::default().db_name("x").db_port(1));
    let raw = loader.load().unwrap();
    assert_eq!(raw.db_name.as_deref(), Some("x"));
    assert_eq!(raw.db_port, Some(1));
}

fn env(pairs: &[(&str, &str)]) -> EnvLoader {
    EnvLoader { vars: pairs.iter().map(|(k, v)| (k.to_string(), v.to_string())).collect() }
}

#[test]
fn env_loader_reads_and_parses_variables() {
    let loader = env(&[
        ("DB_HOST", "pg"),
        ("DB_PORT", "+6000"),
        ("DB_USER", "me"),
        ("DB_PASSWORD", "pw"),
        ("JWT_SECRET", "sec"),
        ("SERVER_MAX_BODY_BYTES", "4096"),
        ("DB_HOST", "ignored"),
    ]);
    let raw = loader.load().unwrap();
    assert_eq!(raw.db_host.as_deref(), Some("pg"));
    assert_eq!(raw.db_port, Some(6000));
    assert_eq!(raw.server_max_body_bytes, Some(4096));
    assert!(raw.db_name.is_none());
    let mut slot = ConfigSlot::new();
    let cfg = Config::init(&mut slot, loader).unwrap();
    assert_eq!(cfg.database.host, "pg");
    assert_eq!(cfg.database.name, "auth");
    assert_eq!(cfg.server.max_body_bytes, 4096);
}

#[test]
fn env_loader_reports_the_first_unparsable_number() {
    let loader = env(&[("SERVER_PORT", "http"), ("DB_MAX_POOL_SIZE", "-1"), ("DB_PORT", "70000")]);
    match loader.load() {
        Err(ConfigError::Parse { key, reason }) => {
            assert_eq!(key, "DB_PORT");
            assert_eq!(reason, "number too large to fit in target type");
        }
        other => panic!("expected a parse error, got {:?}", other.map(|_| ())),
    }
    let loader = env(&[("SERVER_PORT", "http")]);
    assert!(matches!(loader.load(), Err(ConfigError::Parse { ref key, .. }) if key == "SERVER_PORT"));
}

#[test]
fn config_error_messages() {
    assert_eq!(
        ConfigError::Missing("db_host".into()).message(),
        "missing required configuration field: db_host"
    );
    assert_eq!(
        ConfigError::Parse { key: "DB_PORT".into(), reason: "bad".into() }.message(),
        "failed to parse configuration field 'DB_PORT': bad"
    );
}

#[test]
fn parse_reasons_are_the_integer_parse_messages() {
    for (key, value, want) in [
        ("DB_PORT", "http", "x".parse::<u16>().unwrap_err().to_string()),
        ("DB_MAX_POOL_SIZE", "", "".parse::<u32>().unwrap_err().to_string()),
        ("JWT_ACCESS_EXPIRY_SECS", "99999999999999999999", "99999999999999999999".parse::<u64>().unwrap_err().to_string()),
        ("SERVER_MAX_BODY_BYTES", "-1", "-1".parse::<usize>().unwrap_err().to_string()),
    ] {
        match env(&[(key, value)]).load() {
            Err(ConfigError::Parse { key: k, reason }) => {
                assert_eq!(k, key);
                assert_eq!(reason, want);
            }
            other => panic!("expected a parse error, got {:?}", other.map(|_| ())),
        }
    }
    let mut slot = ConfigSlot::new();
    match Config::init(&mut slot, env(&[("DB_PORT", "http")])) {
        Err(ConfigError::Parse { key, reason }) => {
            assert_eq!(key, "DB_PORT");
            assert_eq!(reason, "invalid digit found in string");
        }
        other => panic!("expected a parse error, got {:?}", other.map(|_| ())),
    }
    assert!(!Config::is_initialised(&slot));
}

#[test]
fn durations_carry_nanoseconds() {
    let d = Duration::new(2, 1_500_000_000);
    assert_eq!(d.as_secs(), 3);
    assert_eq!(d.subsec_nanos(), 500_000_000);
    let s = Duration::from_secs(7);
    assert_eq!((s.as_secs(), s.subsec_nanos()), (7, 0));
    let db = RawConfig::default()
        .db_host("h")
        .db_user("u")
        .db_password("p")
        .jwt_secret("s")
        .into_parts()
        .unwrap()
        .0;
    assert_eq!(db.connect_timeout, Duration::from_secs(5));
}

#[test]
fn a_failing_initialisation_leaves_a_set_slot_alone() {
    let mut slot = ConfigSlot::new();
    let full = RawConfig::default().db_host("h").db_user("u").db_password("p").jwt_secret("s");
    let first = Config::init_with(&mut slot, DirectLoader::new(full)).expect("first initialisation");
    let err = Config::init_with(&mut slot, DirectLoader::new(RawConfig::default().db_host("other")));
    assert!(matches!(err, Err(ConfigError::Missing(ref k)) if k == "db_user"));
    let err = Config::init(&mut slot, env(&[("DB_PORT", "x")]));
    assert!(matches!(err, Err(ConfigError::Parse { ref key, .. }) if key == "DB_PORT"));
    assert!(Config::is_initialised(&slot));
    assert_eq!(Config::global(&slot).database.host, first.database.host);
}
