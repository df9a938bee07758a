//! Configuration data models.
//!
//! Plain data structures, their mathematical views and the error type.
//! The conversions live in `crate::utils::config`; the loader trait and the
//! built-in loaders in `crate::interfaces::config`.
use vstd::prelude::*;

pub use crate::interfaces::config::{DirectLoader, EnvLoader};

verus! {

/// A span of time: whole seconds and the nanoseconds beyond them.
#[derive(Debug, Clone, Copy, PartialEq, Eq)]
pub struct Duration {
    secs: u64,
    nanos: u32,
}

impl Duration {
    /// The nanoseconds part stays below one second.
    #[verifier::type_invariant]
    spec fn nanos_below_a_second(self) -> bool {
        self.nanos < 1_000_000_000
    }

    /// `secs` whole seconds.
    pub fn from_secs(secs: u64) -> (d: Duration)
        ensures
            d@ == (secs, 0u32),
    {
        Duration { secs, nanos: 0 }
    }

    /// `secs` seconds and `nanos` nanoseconds, whole seconds of `nanos`
    /// carried into the seconds.
    pub fn new(secs: u64, nanos: u32) -> (d: Duration)
        requires
            secs + nanos / 1_000_000_000 <= u64::MAX,
        ensures
            d@ == ((secs + nanos / 1_000_000_000) as u64, (nanos % 1_000_000_000) as u32),
    {
        Duration { secs: secs + (nanos / 1_000_000_000) as u64, nanos: nanos % 1_000_000_000 }
    }

    /// The whole seconds.
    pub fn as_secs(&self) -> (s: u64)
        ensures
            s == self@.0,
    {
        self.secs
    }

    /// The nanoseconds beyond the whole seconds.
    pub fn subsec_nanos(&self) -> (n: u32)
        ensures
            n == self@.1,
            n < 1_000_000_000,
    {
        proof {
            use_type_invariant(self);
        }
        self.nanos
    }
}

impl View for Duration {
    type V = (u64, u32);

    closed spec fn view(&self) -> (u64, u32) {
        (self.secs, self.nanos)
    }
}

/// Root configuration object.
#[derive(Debug)]
pub struct Config {
    pub database: DatabaseConfig,
    pub jwt: JwtConfig,
    pub server: ServerConfig,
}

/// PostgreSQL connection settings.
#[derive(Debug)]
pub struct DatabaseConfig {
    pub host: String,
    pub port: u16,
    pub user: String,
    pub password: String,
    pub name: String,
    /// Maximum number of connections kept in the pool.
    pub max_pool_size: u32,
    /// How long to wait for a connection before giving up.
    pub connect_timeout: Duration,
}

/// JWT signing / verification settings.
#[derive(Debug)]
pub struct JwtConfig {
    /// HMAC-SHA256 secret used to sign tokens.
    pub secret: String,
    /// How long an access token is valid.
    pub access_token_expiry: Duration,
    /// How long a refresh token is valid.
    pub refresh_token_expiry: Duration,
    /// Token issuer claim (`iss`).
    pub issuer: String,
}

/// HTTP server settings.
#[derive(Debug)]
pub struct ServerConfig {
    pub host: String,
    pub port: u16,
    /// Maximum body size accepted by the server (bytes).
    pub max_body_bytes: usize,
}

#[derive(Debug)]
pub enum ConfigError {
    /// A required field / environment variable was not set.
    Missing(String),
    /// A value was present but could not be parsed into the expected type.
    Parse { key: String, reason: String },
}

/// A flat, fully optional snapshot of every configuration knob.
///
/// Fields left as `None` fall back to the documented defaults when the
/// snapshot is converted (see `RawConfig::into_parts`), except the required
/// `db_host`, `db_user`, `db_password` and `jwt_secret`.
#[derive(Debug)]
pub struct RawConfig {
    pub db_host: Option<String>,
    pub db_port: Option<u16>,
    pub db_user: Option<String>,
    pub db_password: Option<String>,
    pub db_name: Option<String>,
    pub db_max_pool_size: Option<u32>,
    pub db_connect_timeout_secs: Option<u64>,
    pub jwt_secret: Option<String>,
    pub jwt_access_expiry_secs: Option<u64>,
    pub jwt_refresh_expiry_secs: Option<u64>,
    pub jwt_issuer: Option<String>,
    pub server_host: Option<String>,
    pub server_port: Option<u16>,
    pub server_max_body_bytes: Option<usize>,
}

/// A process-wide configuration cell: empty until initialised, then holding
/// one `Config` for good.
pub struct ConfigSlot {
    pub(crate) config: Option<Config>,
}

// ── Views ─────────────────────────────────────────────────────────────────────

pub open spec fn opt_str_view(o: Option<String>) -> Option<Seq<char>> {
    match o {
        Some(s) => Some(s@),
        None => None,
    }
}

pub struct RawConfigView {
    pub db_host: Option<Seq<char>>,
    pub db_port: Option<u16>,
    pub db_user: Option<Seq<char>>,
    pub db_password: Option<Seq<char>>,
    pub db_name: Option<Seq<char>>,
    pub db_max_pool_size: Option<u32>,
    pub db_connect_timeout_secs: Option<u64>,
    pub jwt_secret: Option<Seq<char>>,
    pub jwt_access_expiry_secs: Option<u64>,
    pub jwt_refresh_expiry_secs: Option<u64>,
    pub jwt_issuer: Option<Seq<char>>,
    pub server_host: Option<Seq<char>>,
    pub server_port: Option<u16>,
    pub server_max_body_bytes: Option<usize>,
}

impl View for RawConfig {
    type V = RawConfigView;

    open spec fn view(&self) -> RawConfigView {
        RawConfigView {
            db_host: opt_str_view(self.db_host),
            db_port: self.db_port,
            db_user: opt_str_view(self.db_user),
            db_password: opt_str_view(self.db_password),
            db_name: opt_str_view(self.db_name),
            db_max_pool_size: self.db_max_pool_size,
            db_connect_timeout_secs: self.db_connect_timeout_secs,
            jwt_secret: opt_str_view(self.jwt_secret),
            jwt_access_expiry_secs: self.jwt_access_expiry_secs,
            jwt_refresh_expiry_secs: self.jwt_refresh_expiry_secs,
            jwt_issuer: opt_str_view(self.jwt_issuer),
            server_host: opt_str_view(self.server_host),
            server_port: self.server_port,
            server_max_body_bytes: self.server_max_body_bytes,
        }
    }
}

pub struct DatabaseConfigView {
    pub host: Seq<char>,
    pub port: u16,
    pub user: Seq<char>,
    pub password: Seq<char>,
    pub name: Seq<char>,
    pub max_pool_size: u32,
    pub connect_timeout: (u64, u32),
}

impl View for DatabaseConfig {
    type V = DatabaseConfigView;

    open spec fn view(&self) -> DatabaseConfigView {
        DatabaseConfigView {
            host: self.host@,
            port: self.port,
            user: self.user@,
            password: self.password@,
            name: self.name@,
            max_pool_size: self.max_pool_size,
            connect_timeout: self.connect_timeout@,
        }
    }
}

pub struct JwtConfigView {
    pub secret: Seq<char>,
    pub access_expiry: (u64, u32),
    pub refresh_expiry: (u64, u32),
    pub issuer: Seq<char>,
}

impl View for JwtConfig {
    type V = JwtConfigView;

    open spec fn view(&self) -> JwtConfigView {
        JwtConfigView {
            secret: self.secret@,
            access_expiry: self.access_token_expiry@,
            refresh_expiry: self.refresh_token_expiry@,
            issuer: self.issuer@,
        }
    }
}

pub struct ServerConfigView {
    pub host: Seq<char>,
    pub port: u16,
    pub max_body_bytes: usize,
}

impl View for ServerConfig {
    type V = ServerConfigView;

    open spec fn view(&self) -> ServerConfigView {
        ServerConfigView { host: self.host@, port: self.port, max_body_bytes: self.max_body_bytes }
    }
}

pub struct ConfigView {
    pub database: DatabaseConfigView,
    pub jwt: JwtConfigView,
    pub server: ServerConfigView,
}

impl View for Config {
    type V = ConfigView;

    open spec fn view(&self) -> ConfigView {
        ConfigView { database: self.database@, jwt: self.jwt@, server: self.server@ }
    }
}

pub enum ConfigErrorView {
    Missing(Seq<char>),
    Parse { key: Seq<char>, reason: Seq<char> },
}

impl View for ConfigError {
    type V = ConfigErrorView;

    open spec fn view(&self) -> ConfigErrorView {
        match self {
            ConfigError::Missing(k) => ConfigErrorView::Missing(k@),
            ConfigError::Parse { key, reason } => ConfigErrorView::Parse { key: key@, reason: reason@ },
        }
    }
}

impl View for ConfigSlot {
    type V = Option<ConfigView>;

    closed spec fn view(&self) -> Option<ConfigView> {
        match self.config {
            Some(c) => Some(c@),
            None => None,
        }
    }
}

impl ConfigSlot {
    /// An uninitialised slot.
    pub fn new() -> (s: ConfigSlot)
        ensures
            s@ is None,
    {
        ConfigSlot { config: None }
    }

    pub(crate) fn store(&mut self, c: Config)
        ensures
            final(self)@ == Some(c@),
    {
        self.config = Some(c);
    }

    pub(crate) fn get(&self) -> (c: &Config)
        requires
            self@ is Some,
        ensures
            self@ == Some(c@),
    {
        self.config.as_ref().unwrap()
    }

    pub(crate) fn is_set(&self) -> (b: bool)
        ensures
            b == (self@ is Some),
    {
        self.config.is_some()
    }
}

// ── The model of `RawConfig::into_parts` ──────────────────────────────────────

pub open spec fn str_or(o: Option<Seq<char>>, default: Seq<char>) -> Seq<char> {
    match o {
        Some(s) => s,
        None => default,
    }
}

pub open spec fn num_or<T>(o: Option<T>, default: T) -> T {
    match o {
        Some(v) => v,
        None => default,
    }
}

/// The first required field, in the order `db_host`, `db_user`,
/// `db_password`, `jwt_secret`, that is absent.
pub open spec fn first_missing(raw: RawConfigView) -> Option<Seq<char>> {
    if raw.db_host is None {
        Some("db_host"@)
    } else if raw.db_user is None {
        Some("db_user"@)
    } else if raw.db_password is None {
        Some("db_password"@)
    } else if raw.jwt_secret is None {
        Some("jwt_secret"@)
    } else {
        None
    }
}

/// Database settings of a snapshot: given values, else port 5432,
/// database `auth`, 10 pooled connections and a 5 s connect timeout.
pub open spec fn database_of(raw: RawConfigView) -> DatabaseConfigView {
    DatabaseConfigView {
        host: raw.db_host->0,
        port: num_or(raw.db_port, 5432u16),
        user: raw.db_user->0,
        password: raw.db_password->0,
        name: str_or(raw.db_name, "auth"@),
        max_pool_size: num_or(raw.db_max_pool_size, 10u32),
        connect_timeout: (num_or(raw.db_connect_timeout_secs, 5u64), 0u32),
    }
}

/// JWT settings of a snapshot: given values, else 900 s access tokens,
/// 604800 s refresh tokens and issuer `auth-lib`.
pub open spec fn jwt_of(raw: RawConfigView) -> JwtConfigView {
    JwtConfigView {
        secret: raw.jwt_secret->0,
        access_expiry: (num_or(raw.jwt_access_expiry_secs, 900u64), 0u32),
        refresh_expiry: (num_or(raw.jwt_refresh_expiry_secs, 604800u64), 0u32),
        issuer: str_or(raw.jwt_issuer, "auth-lib"@),
    }
}

/// Server settings of a snapshot: given values, else host `127.0.0.1`,
/// port 8080 and a 1 MiB body limit.
pub open spec fn server_of(raw: RawConfigView) -> ServerConfigView {
    ServerConfigView {
        host: str_or(raw.server_host, "127.0.0.1"@),
        port: num_or(raw.server_port, 8080u16),
        max_body_bytes: num_or(raw.server_max_body_bytes, 1048576usize),
    }
}

/// The configuration a snapshot converts to, when no required field is absent.
pub open spec fn config_of(raw: RawConfigView) -> ConfigView {
    ConfigView { database: database_of(raw), jwt: jwt_of(raw), server: server_of(raw) }
}


/// Converting a snapshot keeps every setting it gives and fills each one it
/// leaves unset with its documented default; it fails exactly when a
/// required field is unset, naming the first of `db_host`, `db_user`,
/// `db_password`, `jwt_secret` that is.
pub proof fn given_settings_override_defaults(raw: RawConfigView)
    ensures
        raw.db_host matches Some(v) ==> database_of(raw).host == v,
        raw.db_user matches Some(v) ==> database_of(raw).user == v,
        raw.db_password matches Some(v) ==> database_of(raw).password == v,
        raw.jwt_secret matches Some(v) ==> jwt_of(raw).secret == v,
        raw.db_port matches Some(v) ==> database_of(raw).port == v,
        raw.db_port is None ==> database_of(raw).port == 5432,
        raw.db_name matches Some(v) ==> database_of(raw).name == v,
        raw.db_name is None ==> database_of(raw).name == "auth"@,
        raw.db_max_pool_size matches Some(v) ==> database_of(raw).max_pool_size == v,
        raw.db_max_pool_size is None ==> database_of(raw).max_pool_size == 10,
        raw.db_connect_timeout_secs matches Some(v) ==> database_of(raw).connect_timeout == (v, 0u32),
        raw.db_connect_timeout_secs is None ==> database_of(raw).connect_timeout == (5u64, 0u32),
        raw.jwt_access_expiry_secs matches Some(v) ==> jwt_of(raw).access_expiry == (v, 0u32),
        raw.jwt_access_expiry_secs is None ==> jwt_of(raw).access_expiry == (900u64, 0u32),
        raw.jwt_refresh_expiry_secs matches Some(v) ==> jwt_of(raw).refresh_expiry == (v, 0u32),
        raw.jwt_refresh_expiry_secs is None ==> jwt_of(raw).refresh_expiry == (604800u64, 0u32),
        raw.jwt_issuer matches Some(v) ==> jwt_of(raw).issuer == v,
        raw.jwt_issuer is None ==> jwt_of(raw).issuer == "auth-lib"@,
        raw.server_host matches Some(v) ==> server_of(raw).host == v,
        raw.server_host is None ==> server_of(raw).host == "127.0.0.1"@,
        raw.server_port matches Some(v) ==> server_of(raw).port == v,
        raw.server_port is None ==> server_of(raw).port == 8080,
        raw.server_max_body_bytes matches Some(v) ==> server_of(raw).max_body_bytes == v,
        raw.server_max_body_bytes is None ==> server_of(raw).max_body_bytes == 1048576,
        (first_missing(raw) is None) == (raw.db_host is Some && raw.db_user is Some && raw.db_password is Some
            && raw.jwt_secret is Some),
        raw.db_host is None ==> first_missing(raw) == Some("db_host"@),
        raw.db_host is Some && raw.db_user is None ==> first_missing(raw) == Some("db_user"@),
        raw.db_host is Some && raw.db_user is Some && raw.db_password is None ==> first_missing(raw) == Some(
            "db_password"@,
        ),
        raw.db_host is Some && raw.db_user is Some && raw.db_password is Some && raw.jwt_secret is None
            ==> first_missing(raw) == Some("jwt_secret"@),
{
}

} // verus!
