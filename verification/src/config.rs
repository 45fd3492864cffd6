//! The kernel's configuration, as read from its TOML file.

use vstd::prelude::*;

verus! {

#[derive(Debug, Clone)]
pub struct AppConfig {
    pub app: AppMeta,
    pub logging: LoggingConfig,
    pub security: SecurityConfig,
}

#[derive(Debug, Clone)]
pub struct AppMeta {
    pub name: String,
    pub version: String,
    pub mode: String,
}

#[derive(Debug, Clone)]
pub struct LoggingConfig {
    pub level: String,
    pub format: String,
}

#[derive(Debug, Clone, Copy)]
pub struct SecurityConfig {
    pub encryption_enabled: bool,
}

} // verus!
