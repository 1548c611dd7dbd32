//! Keeps a reverse-proxy configuration in step with the set of running
//! containers on one host, deriving an application registry from container
//! labels and rendering Caddy snippet files from it.

pub mod app_data;
pub mod config;
pub mod labels;
pub mod listener;
pub mod powerdns;
pub mod registry;
pub mod render;
pub mod strutil;
pub mod summary;
