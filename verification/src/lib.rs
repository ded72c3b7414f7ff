//! Verified core of a self-hosted status page: the rules for service,
//! incident and maintenance records, session cookies, the probe scheduler,
//! the admin forms and the public overview.

pub mod text;
pub mod models;
pub mod error;
pub mod ids;
pub mod auth;
pub mod probes;
pub mod sketchy;
pub mod config;
pub mod views;
pub mod assets;
