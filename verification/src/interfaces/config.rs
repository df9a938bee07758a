//! Configuration loader interface.
//!
//! [`ConfigLoader`] is the trait any configuration source implements; two
//! loaders ship with the library:
//!
//! - [`EnvLoader`]    – a snapshot of the process environment (the default)
//! - [`DirectLoader`] – a caller-supplied [`RawConfig`]
use vstd::prelude::*;

use crate::model::config::{ConfigError, RawConfig};

verus! {

/// Any type that can produce a [`RawConfig`] snapshot.
///
/// Implement this trait to plug in custom configuration sources.  The
/// library calls [`load`](Self::load) once during `Config::init_with`.
pub trait ConfigLoader {
    fn load(&self) -> Result<RawConfig, ConfigError>;
}

/// Loads configuration from environment variables.
///
/// Holds the `(name, value)` pairs of the environment that were set when
/// the snapshot was taken; the first pair with a given name wins.
pub struct EnvLoader {
    pub vars: Vec<(String, String)>,
}

/// Loads configuration from a caller-supplied [`RawConfig`] struct.
pub struct DirectLoader {
    pub raw_config: RawConfig,
}

} // verus!
