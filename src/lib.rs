//! Hot-reloadable service state for a small blogging server: a keyed
//! configuration table, a token authority, a theme engine, site settings and
//! the coordinator that re-derives all of them from stored configuration.

pub mod paths;
pub mod site_settings;
pub mod config_store;
pub mod jwt;
pub mod theme_definition;
pub mod theme;
pub mod reloader;
pub mod http;
pub mod static_config;
