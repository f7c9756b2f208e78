//! Loader for the run configuration of an evolutionary-search tool.
//!
//! The configuration file is TOML text naming four required integer
//! parameters and two required matrices of test-case data (`inputs` and
//! `targets`, whose outer lengths must agree), plus two optional boolean
//! feature flags that default to `false`. [`parameters::parse_config`] turns
//! such text into a validated [`Configuration`] or a tagged [`ConfigError`];
//! the caller decides how to fail on an error.

pub mod decimal;
pub mod error;
pub mod parameters;
pub mod toml_data;

pub use error::ConfigError;
pub use parameters::Configuration;
pub use parameters::parse_config;
